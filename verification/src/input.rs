//! Input events and the run-until-closed state.
//!
//! The loop is in one of two states. It starts `Running`, and becomes
//! `Closing` when the escape key is pressed or the window system asks for
//! the window to be closed. Nothing leads back.

use vstd::prelude::*;

verus! {

/// A key of the keyboard, as far as the loop tells keys apart.
#[derive(Clone, Copy, Debug, PartialEq, Eq, Structural)]
pub enum Key {
    Escape,
    Other,
}

/// What happened to a key.
#[derive(Clone, Copy, Debug, PartialEq, Eq, Structural)]
pub enum KeyAction {
    Press,
    Release,
    Repeat,
}

/// One event out of the window's queue.
#[derive(Clone, Copy, Debug, PartialEq, Eq, Structural)]
pub enum InputEvent {
    /// A key changed state.
    Key { key: Key, action: KeyAction },
    /// The window system asked for the window to be closed.
    CloseRequested,
    /// Any other event.
    Other,
}

/// The state of the loop.
#[derive(Clone, Copy, Debug, PartialEq, Eq, Structural)]
pub enum LoopState {
    Running,
    Closing,
}

impl InputEvent {
    /// Whether the event ends the loop: a press of the escape key, or a
    /// request to close the window.
    pub open spec fn closes(self) -> bool {
        self == (InputEvent::Key { key: Key::Escape, action: KeyAction::Press })
            || self == InputEvent::CloseRequested
    }

    /// Tests whether the event ends the loop.
    pub fn is_closing(&self) -> (b: bool)
        ensures
            b == self.closes(),
    {
        match self {
            InputEvent::Key { key: Key::Escape, action: KeyAction::Press } => true,
            InputEvent::CloseRequested => true,
            _ => false,
        }
    }
}

/// Whether some event of a batch ends the loop.
pub open spec fn any_closes(events: Seq<InputEvent>) -> bool {
    exists|i: int| 0 <= i < events.len() && (#[trigger] events[i]).closes()
}

impl LoopState {
    /// The state after one event: `Closing` once a closing event has been
    /// seen, and otherwise unchanged.
    pub open spec fn after(self, event: InputEvent) -> LoopState {
        if event.closes() {
            LoopState::Closing
        } else {
            self
        }
    }

    /// The state after a batch of events, taken in order.
    pub open spec fn after_all(self, events: Seq<InputEvent>) -> LoopState
        decreases events.len(),
    {
        if events.len() == 0 {
            self
        } else {
            self.after_all(events.drop_last()).after(events.last())
        }
    }

    /// Handles one event.
    pub fn on_event(self, event: InputEvent) -> (next: LoopState)
        ensures
            next == self.after(event),
    {
        if event.is_closing() {
            LoopState::Closing
        } else {
            self
        }
    }

    /// Drains a batch of events. Every event is looked at; those that do
    /// not end the loop have no effect.
    pub fn drain(self, events: &Vec<InputEvent>) -> (next: LoopState)
        ensures
            next == self.after_all(events@),
            next == LoopState::Closing <==> (self == LoopState::Closing || any_closes(events@)),
    {
        let mut state = self;
        let mut i: usize = 0;
        while i < events.len()
            invariant
                i <= events.len(),
                state == self.after_all(events@.take(i as int)),
            decreases events.len() - i,
        {
            assert(events@.take(i + 1).drop_last() == events@.take(i as int));
            state = state.on_event(events[i]);
            i = i + 1;
        }
        assert(events@.take(i as int) == events@);
        proof {
            lemma_after_all_closing(self, events@);
        }
        state
    }
}

/// A batch leaves the loop `Closing` exactly when it found it so or holds a
/// closing event.
pub proof fn lemma_after_all_closing(state: LoopState, events: Seq<InputEvent>)
    ensures
        state.after_all(events) == LoopState::Closing <==> (state == LoopState::Closing
            || any_closes(events)),
    decreases events.len(),
{
    if events.len() > 0 {
        let front = events.drop_last();
        lemma_after_all_closing(state, front);
        if any_closes(events) {
            let i = choose|i: int| 0 <= i < events.len() && (#[trigger] events[i]).closes();
            if i < front.len() {
                assert(front[i].closes());
            }
        }
        if any_closes(front) {
            let i = choose|i: int| 0 <= i < front.len() && (#[trigger] front[i]).closes();
            assert(events[i].closes());
        }
        if events.last().closes() {
            assert(events[events.len() - 1].closes());
        }
    }
}

} // verus!
