//! The play/pause state machine behind the controller's toggle button.
//!
//! The machine itself is pure: flipping the state and choosing the button
//! label are decisions, and both live here. Wiring the label into a real
//! clickable element, and invoking the consumer's transition hook, are host
//! concerns that the surrounding shell performs with the values returned
//! here.

use vstd::prelude::*;

verus! {

/// Whether the animation is paused or playing. A controller starts paused.
#[derive(Clone, Copy, PartialEq, Eq, Structural, Debug)]
pub enum State {
    Pause,
    Play,
}

impl State {
    /// Returns a "pause" indicator for play, and a "play" indicator for
    /// pause. This may not be intuitive: the text on a button shows what the
    /// button will do, not what it already did.
    pub fn text(self) -> (r: &'static str)
        ensures
            self is Pause ==> r@ == "\u{23f5}\u{fe0e}"@,
            self is Play ==> r@ == "\u{23f8}\u{fe0e}"@,
    {
        match self {
            State::Pause => "\u{23f5}\u{fe0e}",
            State::Play => "\u{23f8}\u{fe0e}",
        }
    }

    /// The opposite state.
    pub fn not(self) -> (r: Self)
        ensures
            r == self.flip(),
    {
        match self {
            State::Pause => State::Play,
            State::Play => State::Pause,
        }
    }

    /// What a toggle turns this state into.
    pub open spec fn flip(self) -> State {
        match self {
            State::Pause => State::Play,
            State::Play => State::Pause,
        }
    }
}

/// The state held by the play/pause toggle button.
///
/// A real toggle widget also owns a clickable element and its click-handler
/// closure; those stay with the host shell, which calls [`Button::click`]
/// whenever the element is clicked and then repaints the label with
/// [`State::text`] and runs the consumer's transition hook on the returned
/// state.
pub struct Button {
    state: State,
}

impl Button {
    /// A fresh toggle, initially paused.
    pub fn new() -> (r: Button)
        ensures
            r.state() is Pause,
    {
        Button { state: State::Pause }
    }

    /// The current state.
    pub closed spec fn state(self) -> State {
        self.state
    }

    /// Flips the state and returns the new value, for the caller to display
    /// and to hand to the transition hook.
    pub fn click(&mut self) -> (r: State)
        ensures
            final(self).state() == old(self).state().flip(),
            r == final(self).state(),
    {
        self.state = self.state.not();
        self.state
    }

    /// Whether the machine currently sits in the `Pause` state.
    pub fn is_paused(&self) -> (r: bool)
        ensures
            r == (self.state() is Pause),
    {
        self.state == State::Pause
    }
}

} // verus!
