//! What holds of every sequence of events, however the observer, the boost
//! handler and the scheduler take their turns on the shared state.

use vstd::prelude::*;
use crate::energy::{boosted, decay_units, decayed, in_range, BOOST_AMOUNT, MAX_ENERGY};
use crate::events::{counter_of, next, Event};
use crate::state::{Counter, StateModel};

verus! {

/// The state after all of `events`, applied in order to `m`.
pub open spec fn run(m: StateModel, events: Seq<Event>) -> StateModel
    decreases events.len(),
{
    if events.len() == 0 {
        m
    } else {
        next(run(m, events.drop_last()), events.last())
    }
}

/// How many of `events` count on `counter`.
pub open spec fn counted(events: Seq<Event>, counter: Counter) -> nat
    decreases events.len(),
{
    if events.len() == 0 {
        0
    } else {
        counted(events.drop_last(), counter) + (match events.last() {
            Event::Input { kind, now } => if counter_of(kind) == Some(counter) {
                1nat
            } else {
                0nat
            },
            _ => 0nat,
        })
    }
}

/// How much the ticks among `events` have taken off `counter`, all together,
/// on the way from `m`: each tick takes what the counter holds when it comes.
pub open spec fn drained(m: StateModel, events: Seq<Event>, counter: Counter) -> nat
    decreases events.len(),
{
    if events.len() == 0 {
        0
    } else {
        drained(m, events.drop_last(), counter) + (match events.last() {
            Event::Tick => run(m, events.drop_last()).count(counter),
            _ => 0nat,
        })
    }
}

/// The energy after `n` boosts of `amount` each.
pub open spec fn boosted_times(e: int, amount: nat, n: nat) -> int
    decreases n,
{
    if n == 0 {
        e
    } else {
        boosted(boosted_times(e, amount, (n - 1) as nat), amount)
    }
}

/// No event takes the energy out of range.
pub proof fn lemma_step_keeps_range(m: StateModel, event: Event)
    requires
        m.energy_in_range(),
    ensures
        next(m, event).energy_in_range(),
{
}

/// A tick brings the energy into range and clears the counters, whatever the
/// state was, and takes exactly the decay of its counts from the energy.
pub proof fn lemma_tick(m: StateModel)
    ensures
        next(m, Event::Tick).energy_in_range(),
        next(m, Event::Tick).counters_clear(),
        next(m, Event::Tick).energy == decayed(m.energy, decay_units(m.keys, m.clicks, m.moves)),
        m.energy_in_range() && decay_units(m.keys, m.clicks, m.moves) <= m.energy ==> next(
            m,
            Event::Tick,
        ).energy == m.energy - decay_units(m.keys, m.clicks, m.moves),
        m.energy_in_range() && decay_units(m.keys, m.clicks, m.moves) >= m.energy ==> next(
            m,
            Event::Tick,
        ).energy == 0,
{
}

/// Energy that starts in range is in range after every sequence of events.
pub proof fn lemma_energy_stays_in_range(m: StateModel, events: Seq<Event>)
    requires
        m.energy_in_range(),
    ensures
        run(m, events).energy_in_range(),
    decreases events.len(),
{
    if events.len() > 0 {
        lemma_energy_stays_in_range(m, events.drop_last());
        lemma_step_keeps_range(run(m, events.drop_last()), events.last());
    }
}

/// A boost leaves the energy in range, whatever the state was, and changes
/// nothing else. From energy in range it adds its amount, capped at the
/// maximum.
pub proof fn lemma_boost(m: StateModel)
    ensures
        next(m, Event::Boost).energy_in_range(),
        next(m, Event::Boost) == (StateModel { energy: next(m, Event::Boost).energy, ..m }),
        m.energy_in_range() ==> next(m, Event::Boost).energy == if m.energy + BOOST_AMOUNT
            > MAX_ENERGY {
            MAX_ENERGY as int
        } else {
            m.energy + BOOST_AMOUNT
        },
{
}

/// A state is made with its energy in range, whatever was configured, and
/// stays so through every sequence of events.
pub proof fn lemma_created_state_stays_in_range(
    initial_energy: int,
    messages: Seq<Seq<char>>,
    now: nat,
    events: Seq<Event>,
)
    ensures
        StateModel::created(initial_energy, messages, now).energy_in_range(),
        run(StateModel::created(initial_energy, messages, now), events).energy_in_range(),
{
    lemma_energy_stays_in_range(StateModel::created(initial_energy, messages, now), events);
}

/// Once a tick or a boost has come, the energy is in range, wherever it
/// started.
pub proof fn lemma_energy_in_range_after_mutation(m: StateModel, events: Seq<Event>, i: int)
    requires
        0 <= i < events.len(),
        events[i] == Event::Tick || events[i] == Event::Boost,
    ensures
        run(m, events).energy_in_range(),
    decreases events.len(),
{
    let before = events.drop_last();
    if i == events.len() - 1 {
        lemma_tick(run(m, before));
        lemma_boost(run(m, before));
    } else {
        assert(before[i] == events[i]);
        lemma_energy_in_range_after_mutation(m, before, i);
        lemma_step_keeps_range(run(m, before), events.last());
    }
}

/// Boosts at full energy change nothing, however many and however large.
pub proof fn lemma_boost_at_full_is_idle(amount: nat, n: nat)
    ensures
        boosted_times(MAX_ENERGY as int, amount, n) == MAX_ENERGY,
    decreases n,
{
    if n > 0 {
        lemma_boost_at_full_is_idle(amount, (n - 1) as nat);
    }
}

/// From energy in range, `n` boosts of `amount` lead to the energy plus `n`
/// times `amount`, capped at the maximum.
pub proof fn lemma_boosts_add_up(e: int, amount: nat, n: nat)
    requires
        in_range(e),
    ensures
        boosted_times(e, amount, n) == boosted(e, n * amount),
        boosted_times(e, amount, n) == if e + n * amount > MAX_ENERGY {
            MAX_ENERGY as int
        } else {
            e + n * amount
        },
    decreases n,
{
    if n > 0 {
        lemma_boosts_add_up(e, amount, (n - 1) as nat);
        assert(n * amount == (n - 1) * amount + amount) by (nonlinear_arith);
        assert((n - 1) * amount >= 0) by (nonlinear_arith)
            requires
                n >= 1,
                amount >= 0,
        ;
    } else {
        assert(0 * amount == 0);
    }
}

/// No event is lost and none is counted twice: what the ticks have taken off
/// a counter, together with what the counter still holds, is what it held at
/// first together with the number of events that count on it.
pub proof fn lemma_counts_are_conserved(m: StateModel, events: Seq<Event>, counter: Counter)
    ensures
        drained(m, events, counter) + run(m, events).count(counter) == m.count(counter) + counted(
            events,
            counter,
        ),
    decreases events.len(),
{
    if events.len() > 0 {
        lemma_counts_are_conserved(m, events.drop_last(), counter);
    }
}

/// The message list is set once and never changes.
pub proof fn lemma_messages_never_change(m: StateModel, events: Seq<Event>)
    ensures
        run(m, events).messages == m.messages,
    decreases events.len(),
{
    if events.len() > 0 {
        lemma_messages_never_change(m, events.drop_last());
    }
}

/// Right after a tick all counters are zero, whatever came before it.
pub proof fn lemma_counters_clear_after_tick(m: StateModel, events: Seq<Event>)
    requires
        events.len() > 0,
        events.last() == Event::Tick,
    ensures
        run(m, events).counters_clear(),
{
}

/// Events that come after a tick land in the next tick's account: after a
/// tick and then `later`, in which no tick occurs, each counter holds exactly
/// the number of events of `later` that count on it.
pub proof fn lemma_counts_since_last_tick(
    m: StateModel,
    earlier: Seq<Event>,
    later: Seq<Event>,
    counter: Counter,
)
    requires
        forall|i: int| 0 <= i < later.len() ==> later[i] != Event::Tick,
    ensures
        run(m, earlier.push(Event::Tick) + later).count(counter) == counted(later, counter),
    decreases later.len(),
{
    let head = earlier.push(Event::Tick);
    if later.len() == 0 {
        assert(head + later =~= head);
        assert(head.drop_last() =~= earlier);
        assert(head.last() == Event::Tick);
    } else {
        let all = head + later;
        assert(all.drop_last() =~= head + later.drop_last());
        assert(all.last() == later.last());
        assert(later[later.len() - 1] != Event::Tick);
        assert forall|i: int| 0 <= i < later.drop_last().len() implies later.drop_last()[i]
            != Event::Tick by {
            assert(later.drop_last()[i] == later[i]);
        }
        lemma_counts_since_last_tick(m, earlier, later.drop_last(), counter);
    }
}

} // verus!
