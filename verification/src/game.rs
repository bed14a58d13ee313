//! The table: two move sources, two callbacks, and a record of every call
//! that was made to them.
//!
//! The operations at the end of this file are the only code that talks
//! to the players and the callbacks. Each makes one call and writes it into
//! the record, and the fields are private to this file, so whatever the rest
//! of the library says about the record is a statement about those calls.

use crate::moves::{Move, RoundResult};
use crate::player::PlayerInput;
use vstd::prelude::*;

verus! {

/// One call that a game made to a player or to a callback.
#[derive(Clone, Copy, Debug, PartialEq, Eq, Structural)]
pub enum TableEvent {
    /// Player 1 was asked for a move and gave this one.
    Player1Moved(Move),
    /// Player 2 was asked for a move and gave this one.
    Player2Moved(Move),
    /// The round callback was called with this result.
    RoundAnnounced(RoundResult),
    /// Player 1 was told that player 2 showed this move.
    Player1Told(Move),
    /// Player 2 was told that player 1 showed this move.
    Player2Told(Move),
    /// The end-of-game callback was called with this result.
    GameAnnounced(RoundResult),
}

/// The two callbacks of a game. Both can be called with any result.
struct Callbacks<R, G> where R: Fn(RoundResult), G: Fn(RoundResult) {
    on_round_finished: R,
    on_game_finished: G,
}

impl<R, G> Callbacks<R, G> where R: Fn(RoundResult), G: Fn(RoundResult) {
    #[verifier::type_invariant]
    spec fn take_every_result(self) -> bool {
        &&& forall|result: RoundResult| call_requires(self.on_round_finished, (result,))
        &&& forall|result: RoundResult| call_requires(self.on_game_finished, (result,))
    }

    fn round_finished(&self, result: RoundResult) {
        proof {
            use_type_invariant(self);
        }
        (self.on_round_finished)(result);
    }

    fn game_finished(&self, result: RoundResult) {
        proof {
            use_type_invariant(self);
        }
        (self.on_game_finished)(result);
    }
}

/// Two move sources and the two callbacks that hear about their games.
///
/// A game keeps no score between runs: every run starts from zero points.
/// What it does keep, as ghost state that costs nothing at run time, is the
/// record of the calls it has made.
pub struct Game<A, B, R, G> where
    A: PlayerInput,
    B: PlayerInput,
    R: Fn(RoundResult),
    G: Fn(RoundResult),
 {
    player1_input: A,
    player2_input: B,
    callbacks: Callbacks<R, G>,
    trace: Ghost<Seq<TableEvent>>,
}

impl<A, B, R, G> Game<A, B, R, G> where
    A: PlayerInput,
    B: PlayerInput,
    R: Fn(RoundResult),
    G: Fn(RoundResult),
 {
    /// The first player's move source.
    pub closed spec fn player1(self) -> A {
        self.player1_input
    }

    /// The second player's move source.
    pub closed spec fn player2(self) -> B {
        self.player2_input
    }

    /// Every call made to the players and the callbacks so far, oldest
    /// first.
    pub closed spec fn trace(self) -> Seq<TableEvent> {
        self.trace@
    }

    /// Seats two players at the table and takes the two callbacks, which
    /// must accept every result. Nothing has been called yet.
    pub fn new(player1_input: A, player2_input: B, on_round: R, on_game_finished: G) -> (game:
        Self)
        requires
            forall|result: RoundResult| call_requires(on_round, (result,)),
            forall|result: RoundResult| call_requires(on_game_finished, (result,)),
        ensures
            game.player1() == player1_input,
            game.player2() == player2_input,
            game.trace() == Seq::<TableEvent>::empty(),
    {
        Self {
            player1_input,
            player2_input,
            callbacks: Callbacks { on_round_finished: on_round, on_game_finished },
            trace: Ghost(Seq::empty()),
        }
    }

    /// Takes the table apart again, so that the players can be looked at
    /// after a game.
    pub fn into_players(self) -> (players: (A, B))
        ensures
            players.0 == self.player1(),
            players.1 == self.player2(),
    {
        (self.player1_input, self.player2_input)
    }

    /// Asks player 1 for a move.
    pub(crate) fn ask_player1(&mut self) -> (m: Move)
        ensures
            final(self).trace() == old(self).trace().push(TableEvent::Player1Moved(m)),
    {
        let m = self.player1_input.get_move();
        proof {
            self.trace@ = self.trace@.push(TableEvent::Player1Moved(m));
        }
        m
    }

    /// Asks player 2 for a move.
    pub(crate) fn ask_player2(&mut self) -> (m: Move)
        ensures
            final(self).trace() == old(self).trace().push(TableEvent::Player2Moved(m)),
    {
        let m = self.player2_input.get_move();
        proof {
            self.trace@ = self.trace@.push(TableEvent::Player2Moved(m));
        }
        m
    }

    /// Tells player 1 what player 2 showed.
    pub(crate) fn tell_player1(&mut self, player2_move: Move)
        ensures
            final(self).trace() == old(self).trace().push(TableEvent::Player1Told(player2_move)),
    {
        self.player1_input.observe(player2_move);
        proof {
            self.trace@ = self.trace@.push(TableEvent::Player1Told(player2_move));
        }
    }

    /// Tells player 2 what player 1 showed.
    pub(crate) fn tell_player2(&mut self, player1_move: Move)
        ensures
            final(self).trace() == old(self).trace().push(TableEvent::Player2Told(player1_move)),
    {
        self.player2_input.observe(player1_move);
        proof {
            self.trace@ = self.trace@.push(TableEvent::Player2Told(player1_move));
        }
    }

    /// Calls the round callback.
    pub(crate) fn announce_round(&mut self, result: RoundResult)
        ensures
            final(self).trace() == old(self).trace().push(TableEvent::RoundAnnounced(result)),
    {
        self.callbacks.round_finished(result);
        proof {
            self.trace@ = self.trace@.push(TableEvent::RoundAnnounced(result));
        }
    }

    /// Calls the end-of-game callback.
    pub(crate) fn announce_game(&mut self, result: RoundResult)
        ensures
            final(self).trace() == old(self).trace().push(TableEvent::GameAnnounced(result)),
    {
        self.callbacks.game_finished(result);
        proof {
            self.trace@ = self.trace@.push(TableEvent::GameAnnounced(result));
        }
    }
}

} // verus!
