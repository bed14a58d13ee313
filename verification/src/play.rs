//! Playing a game: a fixed number of rounds, the score, and the result.

use crate::game::{Game, TableEvent};
use crate::moves::{determine_round_result, round_result, Move, RoundResult};
use crate::player::PlayerInput;
use vstd::prelude::*;

verus! {

/// The number of rounds among `results` that ended with `outcome`.
pub open spec fn count_of(results: Seq<RoundResult>, outcome: RoundResult) -> nat
    decreases results.len(),
{
    if results.len() == 0 {
        0
    } else {
        count_of(results.drop_last(), outcome) + if results.last() == outcome {
            1nat
        } else {
            0nat
        }
    }
}

/// The result of a game in which the players scored these points: more
/// points win, equal points tie.
pub open spec fn result_on_points(player1_points: int, player2_points: int) -> RoundResult {
    if player1_points > player2_points {
        RoundResult::Player1Won
    } else if player2_points > player1_points {
        RoundResult::Player2Won
    } else {
        RoundResult::Tie
    }
}

/// The result of a game whose rounds ended with `results`: every round won
/// is a point, a tied round is a point for nobody.
pub open spec fn game_result(results: Seq<RoundResult>) -> RoundResult {
    result_on_points(
        count_of(results, RoundResult::Player1Won) as int,
        count_of(results, RoundResult::Player2Won) as int,
    )
}

/// The results of the rounds in which player 1 shows `moves1` and player 2
/// shows `moves2`, round by round.
pub open spec fn round_results(moves1: Seq<Move>, moves2: Seq<Move>) -> Seq<RoundResult> {
    Seq::new(moves1.len(), |i: int| round_result(moves1[i], moves2[i]))
}

/// The calls of one round in which player 1 shows `move1` and player 2
/// shows `move2`: player 1 is asked, then player 2; the round callback hears
/// the result; then each player is told what the other one showed.
pub open spec fn round_trace(move1: Move, move2: Move) -> Seq<TableEvent> {
    seq![
        TableEvent::Player1Moved(move1),
        TableEvent::Player2Moved(move2),
        TableEvent::RoundAnnounced(round_result(move1, move2)),
        TableEvent::Player1Told(move2),
        TableEvent::Player2Told(move1),
    ]
}

/// The calls of a run of rounds, one round after the other.
pub open spec fn rounds_trace(moves1: Seq<Move>, moves2: Seq<Move>) -> Seq<TableEvent>
    decreases moves1.len(),
{
    if moves1.len() == 0 {
        Seq::empty()
    } else {
        rounds_trace(moves1.drop_last(), moves2.drop_last()) + round_trace(
            moves1.last(),
            moves2.last(),
        )
    }
}

/// The calls of a whole game: its rounds, and then one call of the
/// end-of-game callback with the result of the game.
pub open spec fn game_trace(moves1: Seq<Move>, moves2: Seq<Move>) -> Seq<TableEvent> {
    rounds_trace(moves1, moves2).push(
        TableEvent::GameAnnounced(game_result(round_results(moves1, moves2))),
    )
}

/// The result of a game from the two players' points.
pub fn game_result_on_points(player1_points: u32, player2_points: u32) -> (result: RoundResult)
    ensures
        result == result_on_points(player1_points as int, player2_points as int),
{
    if player1_points > player2_points {
        RoundResult::Player1Won
    } else if player2_points > player1_points {
        RoundResult::Player2Won
    } else {
        RoundResult::Tie
    }
}

impl<A, B, R, G> Game<A, B, R, G> where
    A: PlayerInput,
    B: PlayerInput,
    R: Fn(RoundResult),
    G: Fn(RoundResult),
 {
    /// Plays `rounds` rounds.
    ///
    /// In every round player 1 is asked for a move, then player 2; the round
    /// is decided, the winner gets a point, the round callback hears the
    /// result, and each player is told what the other one showed. When the
    /// last round is over the end-of-game callback hears the result of the
    /// game: the player with more points, or a tie.
    ///
    /// Which moves the players show is up to them. Whatever they are, the
    /// record grows by exactly the calls of a game with those moves.
    pub fn start_game(&mut self, rounds: u8)
        ensures
            exists|moves1: Seq<Move>, moves2: Seq<Move>|
                {
                    &&& moves1.len() == rounds
                    &&& moves2.len() == rounds
                    &&& final(self).trace() == old(self).trace() + #[trigger] game_trace(
                        moves1,
                        moves2,
                    )
                },
    {
        let mut player1_points: u32 = 0;
        let mut player2_points: u32 = 0;
        let ghost mut moves1: Seq<Move> = Seq::empty();
        let ghost mut moves2: Seq<Move> = Seq::empty();

        let mut round: u8 = 0;
        while round < rounds
            invariant
                round <= rounds,
                moves1.len() == round,
                moves2.len() == round,
                player1_points == count_of(
                    round_results(moves1, moves2),
                    RoundResult::Player1Won,
                ),
                player2_points == count_of(
                    round_results(moves1, moves2),
                    RoundResult::Player2Won,
                ),
                player1_points <= round,
                player2_points <= round,
                self.trace() == old(self).trace() + rounds_trace(moves1, moves2),
            decreases rounds - round,
        {
            let player1_move = self.ask_player1();
            let player2_move = self.ask_player2();

            let round_result = determine_round_result(player1_move, player2_move);

            match round_result {
                RoundResult::Tie => (),
                RoundResult::Player1Won => player1_points += 1,
                RoundResult::Player2Won => player2_points += 1,
            }

            self.announce_round(round_result);
            self.tell_player1(player2_move);
            self.tell_player2(player1_move);

            proof {
                let longer1 = moves1.push(player1_move);
                let longer2 = moves2.push(player2_move);
                assert(longer1.drop_last() =~= moves1);
                assert(longer2.drop_last() =~= moves2);
                assert(round_results(longer1, longer2).drop_last() =~= round_results(
                    moves1,
                    moves2,
                ));
                assert(self.trace() =~= old(self).trace() + rounds_trace(longer1, longer2));
                moves1 = longer1;
                moves2 = longer2;
            }
            round += 1;
        }

        let result = game_result_on_points(player1_points, player2_points);
        self.announce_game(result);

        proof {
            assert(self.trace() =~= old(self).trace() + game_trace(moves1, moves2));
        }
    }
}

/// Every round ends in exactly one of the three ways, so the two players'
/// points together never exceed the number of rounds played.
pub proof fn lemma_points_are_bounded_by_rounds(results: Seq<RoundResult>)
    ensures
        count_of(results, RoundResult::Player1Won) + count_of(results, RoundResult::Player2Won)
            + count_of(results, RoundResult::Tie) == results.len(),
        count_of(results, RoundResult::Player1Won) + count_of(results, RoundResult::Player2Won)
            <= results.len(),
    decreases results.len(),
{
    if results.len() > 0 {
        lemma_points_are_bounded_by_rounds(results.drop_last());
    }
}

/// A player who wins every round of a game that has a round wins the game.
pub proof fn lemma_winning_every_round_wins_the_game(
    results: Seq<RoundResult>,
    winner: RoundResult,
)
    requires
        results.len() > 0,
        winner != RoundResult::Tie,
        forall|i: int| 0 <= i < results.len() ==> results[i] == winner,
    ensures
        game_result(results) == winner,
{
    lemma_count_of_a_constant(results, winner);
}

/// In a run of rounds that all ended alike, that result is counted once for
/// each round and no other result is counted at all.
proof fn lemma_count_of_a_constant(results: Seq<RoundResult>, outcome: RoundResult)
    requires
        forall|i: int| 0 <= i < results.len() ==> results[i] == outcome,
    ensures
        count_of(results, outcome) == results.len(),
        forall|other: RoundResult| other != outcome ==> count_of(results, other) == 0,
    decreases results.len(),
{
    if results.len() > 0 {
        lemma_count_of_a_constant(results.drop_last(), outcome);
    }
    assert forall|other: RoundResult| other != outcome implies count_of(results, other)
        == 0 by {
        if results.len() > 0 {
            assert(count_of(results.drop_last(), other) == 0);
        }
    }
}

/// When the two players trade seats, so does the result of the game.
pub proof fn lemma_game_result_mirrors(moves1: Seq<Move>, moves2: Seq<Move>)
    requires
        moves1.len() == moves2.len(),
    ensures
        game_result(round_results(moves2, moves1)) == game_result(
            round_results(moves1, moves2),
        ).mirrored(),
{
    lemma_counts_mirror(moves1, moves2);
}

/// Trading seats turns every round won by one player into a round won by
/// the other.
proof fn lemma_counts_mirror(moves1: Seq<Move>, moves2: Seq<Move>)
    requires
        moves1.len() == moves2.len(),
    ensures
        count_of(round_results(moves2, moves1), RoundResult::Player1Won) == count_of(
            round_results(moves1, moves2),
            RoundResult::Player2Won,
        ),
        count_of(round_results(moves2, moves1), RoundResult::Player2Won) == count_of(
            round_results(moves1, moves2),
            RoundResult::Player1Won,
        ),
    decreases moves1.len(),
{
    if moves1.len() > 0 {
        lemma_counts_mirror(moves1.drop_last(), moves2.drop_last());
        assert(round_results(moves1, moves2).drop_last() =~= round_results(
            moves1.drop_last(),
            moves2.drop_last(),
        ));
        assert(round_results(moves2, moves1).drop_last() =~= round_results(
            moves2.drop_last(),
            moves1.drop_last(),
        ));
    }
}

/// A game of no rounds is a tie, and all it does is to say so once.
pub proof fn lemma_game_without_rounds(moves1: Seq<Move>, moves2: Seq<Move>)
    requires
        moves1.len() == 0,
    ensures
        game_trace(moves1, moves2) == seq![TableEvent::GameAnnounced(RoundResult::Tie)],
{
    assert(game_trace(moves1, moves2) =~= seq![TableEvent::GameAnnounced(RoundResult::Tie)]);
}

/// A game is five calls for every round and one more at its end.
pub proof fn lemma_game_trace_len(moves1: Seq<Move>, moves2: Seq<Move>)
    ensures
        rounds_trace(moves1, moves2).len() == 5 * moves1.len(),
        game_trace(moves1, moves2).len() == 5 * moves1.len() + 1,
    decreases moves1.len(),
{
    if moves1.len() > 0 {
        lemma_game_trace_len(moves1.drop_last(), moves2.drop_last());
    }
}

/// The calls of a game, place by place. Round `i` takes places `5 * i` to
/// `5 * i + 4`: its two moves are asked for, player 1 first; the round
/// callback hears its result; the players are told each other's move. The
/// end-of-game callback is called once, in the last place, after every
/// round callback.
pub proof fn lemma_game_trace_places(moves1: Seq<Move>, moves2: Seq<Move>, i: int)
    requires
        moves1.len() == moves2.len(),
        0 <= i < moves1.len(),
    ensures
        game_trace(moves1, moves2).len() == 5 * moves1.len() + 1,
        game_trace(moves1, moves2)[5 * i] == TableEvent::Player1Moved(moves1[i]),
        game_trace(moves1, moves2)[5 * i + 1] == TableEvent::Player2Moved(moves2[i]),
        game_trace(moves1, moves2)[5 * i + 2] == TableEvent::RoundAnnounced(
            round_result(moves1[i], moves2[i]),
        ),
        game_trace(moves1, moves2)[5 * i + 3] == TableEvent::Player1Told(moves2[i]),
        game_trace(moves1, moves2)[5 * i + 4] == TableEvent::Player2Told(moves1[i]),
        game_trace(moves1, moves2).last() == TableEvent::GameAnnounced(
            game_result(round_results(moves1, moves2)),
        ),
    decreases moves1.len(),
{
    lemma_game_trace_len(moves1, moves2);
    lemma_game_trace_len(moves1.drop_last(), moves2.drop_last());
    if i < moves1.len() - 1 {
        lemma_game_trace_places(moves1.drop_last(), moves2.drop_last(), i);
    }
}

/// What the callbacks hear in a game, in order: the result of every round,
/// round by round, and then, once, the result of the game.
pub open spec fn announcements(trace: Seq<TableEvent>) -> Seq<TableEvent> {
    trace.filter(|event: TableEvent| event is RoundAnnounced || event is GameAnnounced)
}

/// The round callback is called once for every round, in the order of the
/// rounds, and the end-of-game callback once, after the last of them.
pub proof fn lemma_announcements_of_a_game(moves1: Seq<Move>, moves2: Seq<Move>)
    requires
        moves1.len() == moves2.len(),
    ensures
        announcements(game_trace(moves1, moves2)) == round_results(moves1, moves2).map_values(
            |result: RoundResult| TableEvent::RoundAnnounced(result),
        ).push(TableEvent::GameAnnounced(game_result(round_results(moves1, moves2)))),
{
    let rounds = rounds_trace(moves1, moves2);
    let end = seq![TableEvent::GameAnnounced(game_result(round_results(moves1, moves2)))];
    lemma_announcements_of_rounds(moves1, moves2);
    lemma_announcements_of_two_parts(rounds, end);
    assert(announcements(end) =~= end) by {
        reveal_with_fuel(Seq::filter, 2);
    }
    assert(game_trace(moves1, moves2) =~= rounds + end);
}

/// What the callbacks hear over two stretches of calls is what they hear in
/// the first and then what they hear in the second.
proof fn lemma_announcements_of_two_parts(first: Seq<TableEvent>, second: Seq<TableEvent>)
    ensures
        announcements(first + second) == announcements(first) + announcements(second),
{
    Seq::filter_distributes_over_add(
        first,
        second,
        |event: TableEvent| event is RoundAnnounced || event is GameAnnounced,
    );
}

/// Of the five calls of a round, the callbacks hear one: the round's result.
proof fn lemma_announcements_of_one_round(move1: Move, move2: Move)
    ensures
        announcements(round_trace(move1, move2)) == seq![
            TableEvent::RoundAnnounced(round_result(move1, move2)),
        ],
{
    reveal_with_fuel(Seq::filter, 6);
    assert(announcements(round_trace(move1, move2)) =~= seq![
        TableEvent::RoundAnnounced(round_result(move1, move2)),
    ]);
}

/// Of the calls of a run of rounds, the callbacks hear the round results,
/// round by round.
proof fn lemma_announcements_of_rounds(moves1: Seq<Move>, moves2: Seq<Move>)
    requires
        moves1.len() == moves2.len(),
    ensures
        announcements(rounds_trace(moves1, moves2)) == round_results(moves1, moves2).map_values(
            |result: RoundResult| TableEvent::RoundAnnounced(result),
        ),
    decreases moves1.len(),
{
    let announce = |result: RoundResult| TableEvent::RoundAnnounced(result);
    let heard = announcements(rounds_trace(moves1, moves2));
    let results = round_results(moves1, moves2);
    if moves1.len() == 0 {
        assert(heard =~= Seq::<TableEvent>::empty()) by {
            reveal_with_fuel(Seq::filter, 1);
        }
        assert(heard =~= results.map_values(announce));
    } else {
        let before1 = moves1.drop_last();
        let before2 = moves2.drop_last();
        let heard_before = announcements(rounds_trace(before1, before2));
        let round = round_trace(moves1.last(), moves2.last());
        lemma_announcements_of_rounds(before1, before2);
        lemma_announcements_of_two_parts(rounds_trace(before1, before2), round);
        lemma_announcements_of_one_round(moves1.last(), moves2.last());
        assert(heard == heard_before + announcements(round));
        assert(heard_before == round_results(before1, before2).map_values(announce));
        assert(heard.len() == results.len());
        assert forall|i: int| 0 <= i < heard.len() implies heard[i] == results.map_values(
            announce,
        )[i] by {
            if i < before1.len() {
                assert(heard[i] == heard_before[i]);
                assert(round_results(before1, before2)[i] == results[i]);
            }
        }
        assert(heard =~= results.map_values(announce));
    }
}

} // verus!
