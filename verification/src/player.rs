//! Move sources: whoever can be asked for a move.

use crate::moves::Move;
use vstd::prelude::*;

verus! {

/// Something that produces a move on demand: a person at a keyboard, a bot,
/// a recording.
///
/// Nothing is promised about the moves that come out of a source, and
/// nothing is asked of it: whoever drives a source has to cope with any
/// move at any time.
pub trait PlayerInput {
    /// Asks the source for its next move.
    fn get_move(&self) -> Move;

    /// Tells the source which move its opponent showed in the round that
    /// just ended. A source that does not care need not say so: left alone,
    /// this does nothing, and the source stays as it was.
    fn observe(&mut self, opponent_move: Move)
        default_ensures
            &*final(self) == &*old(self),
    {
        let _ = opponent_move;
    }
}

/// A boxed source is a source: the game can be seated with players whose
/// kind is only known when the program runs. The box plays and listens as
/// the source inside it does.
impl<T: PlayerInput + ?Sized> PlayerInput for Box<T> {
    /// Hands out a move of the source in the box.
    fn get_move(&self) -> (m: Move)
        ensures
            call_ensures(T::get_move, (&**self,), m),
    {
        (**self).get_move()
    }

    /// Passes `opponent_move` on to the source in the box: what is in the
    /// box afterwards is what that source made of itself on being told.
    fn observe(&mut self, opponent_move: Move)
        ensures
            exists|inner: &mut T|
                {
                    &&& &*inner == &**old(self)
                    &&& &*final(inner) == &**final(self)
                    &&& #[trigger] call_ensures(T::observe, (inner, opponent_move), ())
                },
    {
        let inner: &mut T = &mut **self;
        let ghost at_first = inner;
        inner.observe(opponent_move);
        assert(exists|called: &mut T|
            {
                &&& &*called == &*at_first
                &&& &*final(called) == &**self
                &&& #[trigger] call_ensures(T::observe, (called, opponent_move), ())
            });
    }
}

} // verus!
