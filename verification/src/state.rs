//! The activity state: energy, the counts gathered since the last tick, the
//! time of the last input and the message list, with the operations that the
//! observer, the scheduler and the boost handler perform on it.
//!
//! Every operation takes the state by `&mut`, so each is one indivisible step
//! for whoever shares the state behind a lock.

use vstd::prelude::*;
use crate::energy::{
    apply_boost, apply_decay, boosted, clamp_energy, clamped, decay_delta, decay_units, decayed,
    in_range, MAX_ENERGY,
};

verus! {

/// The mathematical value of an `ActivityState`.
pub struct StateModel {
    pub energy: int,
    pub last_activity: nat,
    pub keys: nat,
    pub clicks: nat,
    pub moves: nat,
    pub messages: Seq<Seq<char>>,
}

/// The three counters of a state.
#[derive(Clone, Copy, Debug, PartialEq, Eq, Structural)]
pub enum Counter {
    Key,
    Click,
    Move,
}

impl StateModel {
    /// The value of one counter.
    pub open spec fn count(self, counter: Counter) -> nat {
        match counter {
            Counter::Key => self.keys,
            Counter::Click => self.clicks,
            Counter::Move => self.moves,
        }
    }

    /// One more event on `counter`, seen at time `now`.
    pub open spec fn recorded(self, counter: Counter, now: nat) -> StateModel {
        match counter {
            Counter::Key => StateModel { keys: self.keys + 1, last_activity: now, ..self },
            Counter::Click => StateModel { clicks: self.clicks + 1, last_activity: now, ..self },
            Counter::Move => StateModel { moves: self.moves + 1, last_activity: now, ..self },
        }
    }

    /// The state that is made from the given energy, messages and time: the
    /// energy brought into range, nothing counted yet.
    pub open spec fn created(initial_energy: int, messages: Seq<Seq<char>>, now: nat)
        -> StateModel {
        StateModel {
            energy: clamped(initial_energy),
            last_activity: now,
            keys: 0,
            clicks: 0,
            moves: 0,
            messages,
        }
    }

    /// Energy raised by `amount`, capped at the maximum; nothing else changes.
    pub open spec fn boosted(self, amount: nat) -> StateModel {
        StateModel { energy: boosted(self.energy, amount), ..self }
    }

    /// Energy lowered by `delta` and brought into range, all counters cleared.
    pub open spec fn ticked_by(self, delta: nat) -> StateModel {
        StateModel { energy: decayed(self.energy, delta), keys: 0, clicks: 0, moves: 0, ..self }
    }

    /// A tick with the decay that the counts call for.
    pub open spec fn ticked(self) -> StateModel {
        self.ticked_by(decay_units(self.keys, self.clicks, self.moves))
    }

    /// Whether the energy lies between 0 and the maximum.
    pub open spec fn energy_in_range(self) -> bool {
        in_range(self.energy)
    }

    /// Whether all three counters are zero.
    pub open spec fn counters_clear(self) -> bool {
        self.keys == 0 && self.clicks == 0 && self.moves == 0
    }
}

/// What a tick hands to the presentation layer: the energy after the tick
/// and the message list.
#[derive(Clone, Debug)]
pub struct Snapshot {
    pub energy: i64,
    pub messages: Vec<String>,
}

/// The state that observer, scheduler and boost handler share. Its energy
/// lies between 0 and the maximum at all times.
#[derive(Debug)]
pub struct ActivityState {
    energy: i64,
    last_activity: u64,
    key_count: u64,
    click_count: u64,
    move_count: u64,
    messages: Vec<String>,
}

impl View for ActivityState {
    type V = StateModel;

    closed spec fn view(&self) -> StateModel {
        StateModel {
            energy: self.energy as int,
            last_activity: self.last_activity as nat,
            keys: self.key_count as nat,
            clicks: self.click_count as nat,
            moves: self.move_count as nat,
            messages: self.messages.deep_view(),
        }
    }
}

/// A copy of `list`, string by string.
fn copy_messages(list: &Vec<String>) -> (copy: Vec<String>)
    ensures
        copy.deep_view() == list.deep_view(),
{
    let mut copy: Vec<String> = Vec::new();
    let mut i: usize = 0;
    while i < list.len()
        invariant
            i <= list.len(),
            copy.len() == i,
            forall|j: int| 0 <= j < i ==> copy[j]@ == list[j]@,
        decreases list.len() - i,
    {
        copy.push(list[i].clone());
        i += 1;
    }
    assert(copy.deep_view() =~= list.deep_view());
    copy
}

impl ActivityState {
    #[verifier::type_invariant]
    spec fn energy_is_in_range(self) -> bool {
        in_range(self.energy as int)
    }

    /// A state with the given energy, brought into range, and the given
    /// messages, no events counted, and `now` as the time of the last
    /// activity.
    pub fn new(initial_energy: i64, messages: Vec<String>, now: u64) -> (state: ActivityState)
        ensures
            state@ == StateModel::created(
                initial_energy as int,
                messages.deep_view(),
                now as nat,
            ),
            state@.energy_in_range(),
    {
        ActivityState {
            energy: clamp_energy(initial_energy),
            last_activity: now,
            key_count: 0,
            click_count: 0,
            move_count: 0,
            messages,
        }
    }

    /// The counts and the time of a state fit the machine type that holds
    /// them.
    pub proof fn lemma_view_bounds(&self)
        ensures
            self@.last_activity <= u64::MAX,
            self@.keys <= u64::MAX,
            self@.clicks <= u64::MAX,
            self@.moves <= u64::MAX,
    {
    }

    /// The energy, in units: always between 0 and the maximum.
    pub fn energy(&self) -> (e: i64)
        ensures
            e == self@.energy,
            self@.energy_in_range(),
    {
        proof {
            use_type_invariant(self);
        }
        self.energy
    }

    /// The time of the last counted input.
    pub fn last_activity(&self) -> (t: u64)
        ensures
            t == self@.last_activity,
    {
        self.last_activity
    }

    /// Key presses since the last tick.
    pub fn key_count(&self) -> (n: u64)
        ensures
            n == self@.keys,
    {
        self.key_count
    }

    /// Button presses since the last tick.
    pub fn click_count(&self) -> (n: u64)
        ensures
            n == self@.clicks,
    {
        self.click_count
    }

    /// Pointer moves since the last tick.
    pub fn move_count(&self) -> (n: u64)
        ensures
            n == self@.moves,
    {
        self.move_count
    }

    /// The message list.
    pub fn messages(&self) -> (list: &Vec<String>)
        ensures
            list.deep_view() == self@.messages,
    {
        &self.messages
    }

    /// Whether `counter` can take one more event.
    pub fn has_room(&self, counter: Counter) -> (room: bool)
        ensures
            room == (self@.count(counter) < u64::MAX),
    {
        match counter {
            Counter::Key => self.key_count < u64::MAX,
            Counter::Click => self.click_count < u64::MAX,
            Counter::Move => self.move_count < u64::MAX,
        }
    }

    /// Counts one event on `counter` and sets the time of the last activity
    /// to `now`.
    pub fn record(&mut self, counter: Counter, now: u64)
        requires
            old(self)@.count(counter) < u64::MAX,
        ensures
            final(self)@ == old(self)@.recorded(counter, now as nat),
            final(self)@.energy_in_range(),
    {
        proof {
            use_type_invariant(&*self);
        }
        match counter {
            Counter::Key => {
                self.key_count = self.key_count + 1;
            },
            Counter::Click => {
                self.click_count = self.click_count + 1;
            },
            Counter::Move => {
                self.move_count = self.move_count + 1;
            },
        }
        self.last_activity = now;
    }

    /// Counts one key press.
    pub fn record_key(&mut self, now: u64)
        requires
            old(self)@.keys < u64::MAX,
        ensures
            final(self)@ == old(self)@.recorded(Counter::Key, now as nat),
    {
        self.record(Counter::Key, now);
    }

    /// Counts one button press.
    pub fn record_click(&mut self, now: u64)
        requires
            old(self)@.clicks < u64::MAX,
        ensures
            final(self)@ == old(self)@.recorded(Counter::Click, now as nat),
    {
        self.record(Counter::Click, now);
    }

    /// Counts one pointer move.
    pub fn record_move(&mut self, now: u64)
        requires
            old(self)@.moves < u64::MAX,
        ensures
            final(self)@ == old(self)@.recorded(Counter::Move, now as nat),
    {
        self.record(Counter::Move, now);
    }

    /// Adds `amount` to the energy, capped at the maximum. Counters and the
    /// time of the last activity stay as they are. The energy was in range
    /// before, as it always is, so no lower bound comes into play.
    pub fn boost(&mut self, amount: u64)
        ensures
            final(self)@ == old(self)@.boosted(amount as nat),
            old(self)@.energy_in_range(),
            final(self)@.energy_in_range(),
            final(self)@.energy == if old(self)@.energy + amount > MAX_ENERGY {
                MAX_ENERGY as int
            } else {
                old(self)@.energy + amount
            },
    {
        proof {
            use_type_invariant(&*self);
        }
        self.energy = apply_boost(self.energy, amount);
    }

    /// One tick with a decay function of the caller's: hands the counts to
    /// `decay_fn`, takes what it returns from the energy, brings the energy
    /// into range, clears the counters and returns the snapshot.
    pub fn tick_and_snapshot<F: Fn(u64, u64, u64) -> u128>(&mut self, decay_fn: F) -> (snap:
        Snapshot)
        requires
            call_requires(
                decay_fn,
                (old(self)@.keys as u64, old(self)@.clicks as u64, old(self)@.moves as u64),
            ),
        ensures
            exists|delta: u128|
                {
                    &&& #[trigger] call_ensures(
                        decay_fn,
                        (old(self)@.keys as u64, old(self)@.clicks as u64, old(self)@.moves as u64),
                        delta,
                    )
                    &&& final(self)@ == old(self)@.ticked_by(delta as nat)
                },
            final(self)@.energy_in_range(),
            final(self)@.counters_clear(),
            snap.energy == final(self)@.energy,
            snap.messages.deep_view() == final(self)@.messages,
    {
        let delta: u128 = decay_fn(self.key_count, self.click_count, self.move_count);
        self.energy = apply_decay(self.energy, delta);
        self.key_count = 0;
        self.click_count = 0;
        self.move_count = 0;
        Snapshot { energy: self.energy, messages: copy_messages(&self.messages) }
    }

    /// One tick with the standard decay: every key press costs 200 units,
    /// every button press 1000, every pointer move 1.
    pub fn tick(&mut self) -> (snap: Snapshot)
        ensures
            final(self)@ == old(self)@.ticked(),
            final(self)@.energy_in_range(),
            final(self)@.counters_clear(),
            snap.energy == final(self)@.energy,
            snap.messages.deep_view() == final(self)@.messages,
    {
        self.tick_and_snapshot(decay_delta)
    }
}

} // verus!
