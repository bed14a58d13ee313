//! The three moves, the three outcomes of a round, and the rule that decides
//! a round.

use vstd::prelude::*;

verus! {

/// One of the three hands a player can show.
#[derive(Clone, Copy, Debug, PartialEq, Eq, Structural)]
pub enum Move {
    Rock,
    Paper,
    Scissors,
}

/// How a round, or a whole game, ended.
#[derive(Clone, Copy, Debug, PartialEq, Eq, Structural)]
pub enum RoundResult {
    Tie,
    Player1Won,
    Player2Won,
}

/// The dominance relation of the game: rock blunts scissors, scissors cut
/// paper, paper wraps rock.
pub open spec fn beats(winner: Move, loser: Move) -> bool {
    ||| winner == Move::Rock && loser == Move::Scissors
    ||| winner == Move::Scissors && loser == Move::Paper
    ||| winner == Move::Paper && loser == Move::Rock
}

/// The outcome of a round in which player 1 shows `move1` and player 2 shows
/// `move2`.
pub open spec fn round_result(move1: Move, move2: Move) -> RoundResult {
    if move1 == move2 {
        RoundResult::Tie
    } else if beats(move1, move2) {
        RoundResult::Player1Won
    } else {
        RoundResult::Player2Won
    }
}

/// The move that defeats `m`.
pub open spec fn counter_of(m: Move) -> Move {
    match m {
        Move::Rock => Move::Paper,
        Move::Paper => Move::Scissors,
        Move::Scissors => Move::Rock,
    }
}

impl RoundResult {
    /// The same outcome seen from the other side of the table: the two
    /// players trade places, a tie stays a tie.
    pub open spec fn mirrored(self) -> RoundResult {
        match self {
            RoundResult::Tie => RoundResult::Tie,
            RoundResult::Player1Won => RoundResult::Player2Won,
            RoundResult::Player2Won => RoundResult::Player1Won,
        }
    }
}

/// Decides one round. Every pair of moves is written out, so each of the nine
/// cases can be read off on its own.
pub fn determine_round_result(move1: Move, move2: Move) -> (result: RoundResult)
    ensures
        result == round_result(move1, move2),
{
    match move1 {
        Move::Rock => match move2 {
            Move::Rock => RoundResult::Tie,
            Move::Paper => RoundResult::Player2Won,
            Move::Scissors => RoundResult::Player1Won,
        },
        Move::Paper => match move2 {
            Move::Rock => RoundResult::Player1Won,
            Move::Paper => RoundResult::Tie,
            Move::Scissors => RoundResult::Player2Won,
        },
        Move::Scissors => match move2 {
            Move::Rock => RoundResult::Player2Won,
            Move::Paper => RoundResult::Player1Won,
            Move::Scissors => RoundResult::Tie,
        },
    }
}

/// The nine rounds there are, one by one.
pub proof fn lemma_round_result_table()
    ensures
        round_result(Move::Rock, Move::Rock) == RoundResult::Tie,
        round_result(Move::Rock, Move::Paper) == RoundResult::Player2Won,
        round_result(Move::Rock, Move::Scissors) == RoundResult::Player1Won,
        round_result(Move::Paper, Move::Rock) == RoundResult::Player1Won,
        round_result(Move::Paper, Move::Paper) == RoundResult::Tie,
        round_result(Move::Paper, Move::Scissors) == RoundResult::Player2Won,
        round_result(Move::Scissors, Move::Rock) == RoundResult::Player2Won,
        round_result(Move::Scissors, Move::Paper) == RoundResult::Player1Won,
        round_result(Move::Scissors, Move::Scissors) == RoundResult::Tie,
{
}

/// Of two different moves exactly one beats the other, and no move beats
/// itself.
pub proof fn lemma_beats_is_a_tournament(a: Move, b: Move)
    ensures
        !beats(a, a),
        a != b ==> (beats(a, b) <==> !beats(b, a)),
{
}

/// Trading the two players' moves trades the winner: a win for player 1
/// becomes a win for player 2 and the other way round, and a tie stays a tie.
pub proof fn lemma_round_result_mirrors(a: Move, b: Move)
    ensures
        round_result(b, a) == round_result(a, b).mirrored(),
        round_result(a, b) == RoundResult::Player1Won <==> round_result(b, a)
            == RoundResult::Player2Won,
        round_result(a, b) == RoundResult::Tie <==> a == b,
{
}

/// The counter move is the one and only move that beats a given move.
pub proof fn lemma_counter_is_the_only_winner(m: Move, other: Move)
    ensures
        beats(other, m) <==> other == counter_of(m),
        round_result(counter_of(m), m) == RoundResult::Player1Won,
{
}

} // verus!
