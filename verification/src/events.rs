//! The decisions of the observer, the boost handler and the scheduler, as one
//! step from a state and an event to the next state and an action. Whoever
//! runs the loops performs the action and reports the next event.

use vstd::prelude::*;
use crate::energy::BOOST_AMOUNT;
use crate::state::{ActivityState, Counter, Snapshot, StateModel};

verus! {

/// The kinds of event that the system's input stream delivers.
#[derive(Clone, Copy, Debug, PartialEq, Eq, Structural)]
pub enum InputEvent {
    KeyPress,
    KeyRelease,
    ButtonPress,
    ButtonRelease,
    MouseMove,
    Wheel,
}

/// What can happen to the shared state.
#[derive(Clone, Copy, Debug, PartialEq, Eq, Structural)]
pub enum Event {
    /// The observer saw an input event at time `now`.
    Input { kind: InputEvent, now: u64 },
    /// The presentation layer asked for a boost.
    Boost,
    /// The scheduler's period has passed.
    Tick,
    /// The subscription to the input stream could not be made, or ended.
    ObserverFailed,
    /// A snapshot found no subscriber.
    PublishFailed,
}

/// What the caller is to do after a step.
#[derive(Debug)]
pub enum Action {
    /// Nothing; go on.
    Continue,
    /// Deliver the snapshot to the presentation layer.
    Publish(Snapshot),
    /// Report the failure and end the process.
    Abort,
}

/// The counter that an input event counts on, if any: key presses, button
/// presses and pointer moves count, everything else is ignored.
pub open spec fn counter_of(kind: InputEvent) -> Option<Counter> {
    match kind {
        InputEvent::KeyPress => Some(Counter::Key),
        InputEvent::ButtonPress => Some(Counter::Click),
        InputEvent::MouseMove => Some(Counter::Move),
        _ => None,
    }
}

/// The state after an input event of the given kind at time `now`.
pub open spec fn observed(m: StateModel, kind: InputEvent, now: nat) -> StateModel {
    match counter_of(kind) {
        Some(counter) => m.recorded(counter, now),
        None => m,
    }
}

/// The state after `event`.
pub open spec fn next(m: StateModel, event: Event) -> StateModel {
    match event {
        Event::Input { kind, now } => observed(m, kind, now as nat),
        Event::Boost => m.boosted(BOOST_AMOUNT as nat),
        Event::Tick => m.ticked(),
        Event::ObserverFailed => m,
        Event::PublishFailed => m,
    }
}

/// Whether the counter that `kind` counts on, if any, can take one more.
pub open spec fn has_room_for(m: StateModel, kind: InputEvent) -> bool {
    match counter_of(kind) {
        Some(counter) => m.count(counter) < u64::MAX,
        None => true,
    }
}

/// Whether the state can take `event` without a counter running over.
pub open spec fn accepts(m: StateModel, event: Event) -> bool {
    match event {
        Event::Input { kind, now } => has_room_for(m, kind),
        _ => true,
    }
}

/// The counter that an input event counts on, if any.
pub fn classify(kind: InputEvent) -> (counter: Option<Counter>)
    ensures
        counter == counter_of(kind),
{
    match kind {
        InputEvent::KeyPress => Some(Counter::Key),
        InputEvent::ButtonPress => Some(Counter::Click),
        InputEvent::MouseMove => Some(Counter::Move),
        _ => None,
    }
}

/// Whether `state` can take `event` without a counter running over.
pub fn can_accept(state: &ActivityState, event: Event) -> (ok: bool)
    ensures
        ok == accepts(state@, event),
{
    match event {
        Event::Input { kind, now } => match classify(kind) {
            Some(counter) => state.has_room(counter),
            None => true,
        },
        _ => true,
    }
}

/// The observer's part: counts an input event on its counter and notes the
/// time, or leaves the state alone where the kind is not counted.
pub fn observe(state: &mut ActivityState, kind: InputEvent, now: u64)
    requires
        has_room_for(old(state)@, kind),
    ensures
        final(state)@ == observed(old(state)@, kind, now as nat),
        final(state)@.energy_in_range(),
{
    let _ = state.energy();
    match classify(kind) {
        Some(counter) => {
            state.record(counter, now);
        },
        None => {},
    }
}

/// The boost handler's part: raises the energy by `BOOST_AMOUNT`, capped at
/// the maximum.
pub fn boost_energy(state: &mut ActivityState)
    ensures
        final(state)@ == old(state)@.boosted(BOOST_AMOUNT as nat),
        final(state)@.energy_in_range(),
{
    state.boost(BOOST_AMOUNT);
}

/// One step: applies `event` to `state` and says what to do next. A tick
/// asks for its snapshot to be published; a failed observer ends the process;
/// a failed publication is dropped and the loop goes on.
pub fn step(state: &mut ActivityState, event: Event) -> (action: Action)
    requires
        accepts(old(state)@, event),
    ensures
        final(state)@ == next(old(state)@, event),
        final(state)@.energy_in_range(),
        match event {
            Event::Tick => match action {
                Action::Publish(snap) => snap.energy == final(state)@.energy
                    && snap.messages.deep_view() == final(state)@.messages,
                _ => false,
            },
            Event::ObserverFailed => action is Abort,
            _ => action is Continue,
        },
{
    match event {
        Event::Input { kind, now } => {
            observe(state, kind, now);
            Action::Continue
        },
        Event::Boost => {
            boost_energy(state);
            Action::Continue
        },
        Event::Tick => Action::Publish(state.tick()),
        Event::ObserverFailed => {
            let _ = state.energy();
            Action::Abort
        },
        Event::PublishFailed => {
            let _ = state.energy();
            Action::Continue
        },
    }
}

} // verus!
