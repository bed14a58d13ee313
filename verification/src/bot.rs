//! Bots: move sources that pick at random, some of them with a bias towards
//! the move that beats what the opponent showed last.

use crate::chance::{random_below, random_ratio};
use crate::moves::{beats, counter_of, Move};
use crate::player::PlayerInput;
use vstd::prelude::*;

verus! {

/// How hard a bot tries.
#[derive(Clone, Copy, Debug, PartialEq, Eq, Structural)]
pub enum BotMode {
    /// Picks each of the three moves equally often.
    Random,
    /// Plays the counter move three times in ten.
    Easy,
    /// Plays the counter move every other time.
    Medium,
    /// Plays the counter move seven times in ten.
    Hard,
}

/// The chance, in percent, with which an easy bot plays the counter move.
pub const EASY_WIN_PERCENT: u32 = 30;

/// The chance, in percent, with which a medium bot plays the counter move.
pub const MEDIUM_WIN_PERCENT: u32 = 50;

/// The chance, in percent, with which a hard bot plays the counter move.
pub const HARD_WIN_PERCENT: u32 = 70;

/// The move that a bot takes its opponent to have played before it has seen
/// any.
pub open spec fn default_enemy_move() -> Move {
    Move::Rock
}

/// The three moves in the order in which a bot counts them.
pub open spec fn all_moves() -> Seq<Move> {
    seq![Move::Rock, Move::Paper, Move::Scissors]
}

/// The moves other than `excluded`, in the order in which a bot counts
/// them.
pub open spec fn moves_except(excluded: Move) -> Seq<Move> {
    all_moves().filter(|m: Move| m != excluded)
}

/// Leaving one move out leaves the two others, in their order.
pub proof fn lemma_moves_except(excluded: Move)
    ensures
        moves_except(excluded).len() == 2,
        !moves_except(excluded).contains(excluded),
        moves_except(Move::Rock) == seq![Move::Paper, Move::Scissors],
        moves_except(Move::Paper) == seq![Move::Rock, Move::Scissors],
        moves_except(Move::Scissors) == seq![Move::Rock, Move::Paper],
{
    reveal_with_fuel(Seq::filter, 4);
    assert(moves_except(Move::Rock) =~= seq![Move::Paper, Move::Scissors]);
    assert(moves_except(Move::Paper) =~= seq![Move::Rock, Move::Scissors]);
    assert(moves_except(Move::Scissors) =~= seq![Move::Rock, Move::Paper]);
}

/// Whether `m` can come out of a draw among all three moves: the dice picked
/// a place below three, and `m` is the move in that place.
pub closed spec fn drawn_at_random(m: Move) -> bool {
    exists|index: u32| #[trigger]
        call_ensures(random_below, (3u32,), index) && m == all_moves()[index as int]
}

/// Whether `m` can be the answer to `enemy_move` of a bot that counters with
/// a chance of `win_percent` in a hundred: the dice were asked for a hit with
/// that chance, and `m` is what [`BotPlayer::biased_move`] makes of their
/// answer.
pub closed spec fn drawn_with_bias(enemy_move: Move, win_percent: u32, m: Move) -> bool {
    exists|hit: bool| #[trigger]
        call_ensures(random_ratio, (win_percent, 100u32), hit) && call_ensures(
            BotPlayer::biased_move,
            (enemy_move, hit),
            m,
        )
}

/// Whether a bot of the given mode can answer `enemy_move` with `m`. A
/// random bot draws among all three moves and does not look at
/// `enemy_move`; the others counter it with the chance of their mode.
pub open spec fn may_play(mode: BotMode, enemy_move: Move, m: Move) -> bool {
    match mode {
        BotMode::Random => drawn_at_random(m),
        BotMode::Easy => drawn_with_bias(enemy_move, EASY_WIN_PERCENT, m),
        BotMode::Medium => drawn_with_bias(enemy_move, MEDIUM_WIN_PERCENT, m),
        BotMode::Hard => drawn_with_bias(enemy_move, HARD_WIN_PERCENT, m),
    }
}

/// A bias of a hundred in a hundred always gives the counter move, and a
/// bias of nought never does.
pub proof fn lemma_drawn_with_bias_at_the_ends(enemy_move: Move, win_percent: u32, m: Move)
    requires
        drawn_with_bias(enemy_move, win_percent, m),
    ensures
        win_percent == 100 ==> m == counter_of(enemy_move),
        win_percent == 0 ==> m != counter_of(enemy_move),
{
}

/// A move source that plays by chance.
pub struct BotPlayer {
    mode: BotMode,
    enemy_move: Move,
}

impl BotPlayer {
    /// The difficulty this bot was made with.
    pub closed spec fn spec_mode(&self) -> BotMode {
        self.mode
    }

    /// The opponent's move that the bot will play against next.
    pub closed spec fn spec_enemy_move(&self) -> Move {
        self.enemy_move
    }

    /// The difficulty this bot was made with.
    #[verifier::when_used_as_spec(spec_mode)]
    pub fn mode(&self) -> (mode: BotMode)
        ensures
            mode == self.mode(),
    {
        self.mode
    }

    /// The opponent's move that the bot will play against next: the one it
    /// was told of last, or rock while it has been told of none.
    #[verifier::when_used_as_spec(spec_enemy_move)]
    pub fn enemy_move(&self) -> (enemy_move: Move)
        ensures
            enemy_move == self.enemy_move(),
    {
        self.enemy_move
    }

    /// A bot of the given difficulty that has seen nothing yet, and so takes
    /// its opponent to have played rock.
    pub fn new(mode: BotMode) -> (bot: Self)
        ensures
            bot.mode() == mode,
            bot.enemy_move() == default_enemy_move(),
    {
        Self { mode, enemy_move: Move::Rock }
    }

    /// Picks the move at position `index` of rock, paper, scissors.
    pub fn move_from_index(index: u32) -> (m: Move)
        requires
            index < 3,
        ensures
            m == all_moves()[index as int],
    {
        if index == 0 {
            Move::Rock
        } else if index == 1 {
            Move::Paper
        } else {
            Move::Scissors
        }
    }

    /// Picks one of the two moves other than `exclude_move`: the earlier one
    /// in the order rock, paper, scissors for `selection` 0, the later one
    /// for `selection` 1.
    pub fn move_except(exclude_move: Move, selection: u32) -> (m: Move)
        requires
            selection < 2,
        ensures
            m == moves_except(exclude_move)[selection as int],
            m != exclude_move,
    {
        proof {
            lemma_moves_except(exclude_move);
        }
        match exclude_move {
            Move::Rock => if selection == 0 {
                Move::Paper
            } else {
                Move::Scissors
            },
            Move::Paper => if selection == 0 {
                Move::Rock
            } else {
                Move::Scissors
            },
            Move::Scissors => if selection == 0 {
                Move::Rock
            } else {
                Move::Paper
            },
        }
    }

    /// Returns the one move that beats `enemy_move`.
    pub fn winner_move(enemy_move: Move) -> (m: Move)
        ensures
            m == counter_of(enemy_move),
            beats(m, enemy_move),
    {
        match enemy_move {
            Move::Rock => Move::Paper,
            Move::Paper => Move::Scissors,
            Move::Scissors => Move::Rock,
        }
    }

    /// Any of the three moves, each as likely as the others: the move in
    /// the place that the dice pick out of three.
    fn move_random() -> (m: Move)
        ensures
            drawn_at_random(m),
    {
        let index: u32 = random_below(3);
        Self::move_from_index(index)
    }

    /// One of the two moves other than `exclude_move`, each as likely as the
    /// other.
    fn rand_move_except(exclude_move: Move) -> (m: Move)
        ensures
            m != exclude_move,
    {
        let selection: u32 = random_below(2);
        Self::move_except(exclude_move, selection)
    }

    /// What a biased bot plays once the dice have said whether this is one of
    /// its winning turns: the counter move to `enemy_move` on a hit, one of
    /// the two other moves on a miss.
    pub fn biased_move(enemy_move: Move, hit: bool) -> (m: Move)
        ensures
            hit ==> m == counter_of(enemy_move),
            !hit ==> m != counter_of(enemy_move),
    {
        let winner_move = Self::winner_move(enemy_move);
        if hit {
            return winner_move;
        }
        Self::rand_move_except(winner_move)
    }

    /// Plays the counter move to `enemy_move` with a chance of `win_percent`
    /// in a hundred, and otherwise one of the two other moves.
    fn move_probability(enemy_move: Move, win_percent: u32) -> (m: Move)
        requires
            win_percent <= 100,
        ensures
            drawn_with_bias(enemy_move, win_percent, m),
            win_percent == 100 ==> m == counter_of(enemy_move),
            win_percent == 0 ==> m != counter_of(enemy_move),
    {
        let hit = random_ratio(win_percent, 100);
        Self::biased_move(enemy_move, hit)
    }

    /// Answers `enemy_move` as an easy bot does: with the counter move three
    /// times in ten.
    fn move_easy(enemy_move: Move) -> (m: Move)
        ensures
            drawn_with_bias(enemy_move, EASY_WIN_PERCENT, m),
    {
        Self::move_probability(enemy_move, EASY_WIN_PERCENT)
    }

    /// Answers `enemy_move` as a medium bot does: with the counter move
    /// every other time.
    fn move_medium(enemy_move: Move) -> (m: Move)
        ensures
            drawn_with_bias(enemy_move, MEDIUM_WIN_PERCENT, m),
    {
        Self::move_probability(enemy_move, MEDIUM_WIN_PERCENT)
    }

    /// Answers `enemy_move` as a hard bot does: with the counter move seven
    /// times in ten.
    fn move_hard(enemy_move: Move) -> (m: Move)
        ensures
            drawn_with_bias(enemy_move, HARD_WIN_PERCENT, m),
    {
        Self::move_probability(enemy_move, HARD_WIN_PERCENT)
    }
}

impl PlayerInput for BotPlayer {
    /// Plays by the bot's mode, against the opponent's move it remembers.
    fn get_move(&self) -> (m: Move)
        ensures
            may_play(self.mode(), self.enemy_move(), m),
    {
        match self.mode {
            BotMode::Random => BotPlayer::move_random(),
            BotMode::Easy => BotPlayer::move_easy(self.enemy_move),
            BotMode::Medium => BotPlayer::move_medium(self.enemy_move),
            BotMode::Hard => BotPlayer::move_hard(self.enemy_move),
        }
    }

    /// Remembers `opponent_move` as the move to play against from now on.
    fn observe(&mut self, opponent_move: Move)
        ensures
            final(self).mode() == old(self).mode(),
            final(self).enemy_move() == opponent_move,
    {
        self.enemy_move = opponent_move;
    }
}

} // verus!
