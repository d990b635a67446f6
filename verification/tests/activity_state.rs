use activity_energy::energy::{decay_delta, MAX_ENERGY};
use activity_energy::events::boost_energy;
use activity_energy::state::{ActivityState, Counter};

fn messages() -> Vec<String> {
    vec![String::from("first"), String::from("second"), String::from("third")]
}

#[test]
fn new_state_holds_what_it_was_given() {
    let state = ActivityState::new(425_000, messages(), 17);
    assert_eq!(state.energy(), 425_000);
    assert_eq!(state.last_activity(), 17);
    assert_eq!(state.key_count(), 0);
    assert_eq!(state.click_count(), 0);
    assert_eq!(state.move_count(), 0);
    assert_eq!(state.messages(), &messages());
}

#[test]
fn ten_key_presses_then_one_tick() {
    let mut state = ActivityState::new(1_000_000, messages(), 0);
    for i in 0..10u64 {
        state.record_key(i);
    }
    assert_eq!(state.key_count(), 10);
    let snap = state.tick();
    assert_eq!(snap.energy, 998_000);
    assert_eq!(state.energy(), 998_000);
    assert_eq!(snap.messages, messages());
}

#[test]
fn fifty_clicks_clamp_low_energy_to_zero() {
    let mut state = ActivityState::new(30_000, Vec::new(), 0);
    for i in 0..50u64 {
        state.record_click(i);
    }
    let snap = state.tick();
    assert_eq!(snap.energy, 0);
    assert_eq!(state.energy(), 0);
    assert!(snap.messages.is_empty());
}

#[test]
fn one_boost_then_ten_more() {
    let mut state = ActivityState::new(500_000, Vec::new(), 0);
    boost_energy(&mut state);
    assert_eq!(state.energy(), 550_000);
    for _ in 0..10 {
        boost_energy(&mut state);
    }
    assert_eq!(state.energy(), 1_000_000);
}

#[test]
fn boost_at_full_energy_changes_nothing() {
    let mut state = ActivityState::new(MAX_ENERGY, Vec::new(), 0);
    for amount in [0u64, 1, 50_000, u64::MAX] {
        state.boost(amount);
        assert_eq!(state.energy(), MAX_ENERGY);
    }
}

#[test]
fn boost_leaves_counters_and_time_alone() {
    let mut state = ActivityState::new(100_000, messages(), 5);
    state.record_key(9);
    state.record_move(11);
    state.boost(1_234);
    assert_eq!(state.energy(), 101_234);
    assert_eq!(state.key_count(), 1);
    assert_eq!(state.click_count(), 0);
    assert_eq!(state.move_count(), 1);
    assert_eq!(state.last_activity(), 11);
    assert_eq!(state.messages(), &messages());
}

#[test]
fn record_counts_on_the_named_counter_and_notes_the_time() {
    let mut state = ActivityState::new(0, Vec::new(), 1);
    state.record_key(10);
    assert_eq!((state.key_count(), state.click_count(), state.move_count()), (1, 0, 0));
    assert_eq!(state.last_activity(), 10);
    state.record_click(20);
    assert_eq!((state.key_count(), state.click_count(), state.move_count()), (1, 1, 0));
    assert_eq!(state.last_activity(), 20);
    state.record_move(30);
    assert_eq!((state.key_count(), state.click_count(), state.move_count()), (1, 1, 1));
    assert_eq!(state.last_activity(), 30);
    state.record(Counter::Move, 40);
    state.record(Counter::Key, 50);
    state.record(Counter::Click, 60);
    assert_eq!((state.key_count(), state.click_count(), state.move_count()), (2, 2, 2));
    assert_eq!(state.last_activity(), 60);
    assert_eq!(state.energy(), 0);
}

#[test]
fn room_on_each_counter() {
    let mut state = ActivityState::new(0, Vec::new(), 0);
    assert!(state.has_room(Counter::Key));
    assert!(state.has_room(Counter::Click));
    assert!(state.has_room(Counter::Move));
    state.record_click(1);
    assert!(state.has_room(Counter::Click));
}

#[test]
fn tick_takes_the_decay_of_all_three_counts() {
    let mut state = ActivityState::new(800_000, messages(), 0);
    for _ in 0..3 {
        state.record_key(1);
    }
    for _ in 0..2 {
        state.record_click(2);
    }
    for _ in 0..7 {
        state.record_move(3);
    }
    let snap = state.tick();
    assert_eq!(snap.energy, 800_000 - 2_607);
    assert_eq!(state.energy(), 797_393);
}

#[test]
fn tick_clears_counters_and_keeps_time_and_messages() {
    let mut state = ActivityState::new(800_000, messages(), 0);
    state.record_key(4);
    state.record_click(5);
    state.record_move(6);
    let _ = state.tick();
    assert_eq!(state.key_count(), 0);
    assert_eq!(state.click_count(), 0);
    assert_eq!(state.move_count(), 0);
    assert_eq!(state.last_activity(), 6);
    assert_eq!(state.messages(), &messages());
}

#[test]
fn idle_tick_keeps_energy() {
    let mut state = ActivityState::new(123_456, Vec::new(), 0);
    let snap = state.tick();
    assert_eq!(snap.energy, 123_456);
    let snap = state.tick();
    assert_eq!(snap.energy, 123_456);
}

#[test]
fn new_state_has_its_energy_in_range() {
    let mut high = ActivityState::new(2_500_000, Vec::new(), 0);
    assert_eq!(high.energy(), MAX_ENERGY);
    assert_eq!(high.tick().energy, MAX_ENERGY);
    let mut low = ActivityState::new(-5, Vec::new(), 0);
    assert_eq!(low.energy(), 0);
    assert_eq!(low.tick().energy, 0);
    assert_eq!(ActivityState::new(i64::MAX, Vec::new(), 0).energy(), MAX_ENERGY);
    assert_eq!(ActivityState::new(i64::MIN, Vec::new(), 0).energy(), 0);
    assert_eq!(ActivityState::new(0, Vec::new(), 0).energy(), 0);
    assert_eq!(ActivityState::new(MAX_ENERGY, Vec::new(), 0).energy(), MAX_ENERGY);
}

#[test]
fn boost_after_a_start_below_range_counts_from_zero() {
    let mut state = ActivityState::new(-500_000, Vec::new(), 0);
    assert_eq!(state.energy(), 0);
    boost_energy(&mut state);
    assert_eq!(state.energy(), 50_000);
    assert_eq!(state.tick().energy, 50_000);
}

#[test]
fn decay_after_a_start_above_range_counts_from_the_maximum() {
    let mut state = ActivityState::new(2_000_000, Vec::new(), 0);
    state.record_key(1);
    assert_eq!(state.tick().energy, MAX_ENERGY - 200);
}

#[test]
fn tick_with_a_decay_function_of_the_caller() {
    let mut state = ActivityState::new(1_000, messages(), 0);
    state.record_key(1);
    state.record_key(2);
    state.record_click(3);
    let snap = state.tick_and_snapshot(|k: u64, c: u64, m: u64| (k * 100 + c * 10 + m) as u128);
    assert_eq!(snap.energy, 1_000 - 210);
    assert_eq!(snap.messages, messages());
    assert_eq!(state.key_count(), 0);
    assert_eq!(state.click_count(), 0);
    let snap = state.tick_and_snapshot(|_: u64, _: u64, _: u64| 5_000u128);
    assert_eq!(snap.energy, 0);
}

#[test]
fn tick_with_the_standard_decay_function_agrees_with_tick() {
    let mut a = ActivityState::new(600_000, Vec::new(), 0);
    let mut b = ActivityState::new(600_000, Vec::new(), 0);
    for _ in 0..4 {
        a.record_key(1);
        b.record_key(1);
        a.record_move(1);
        b.record_move(1);
    }
    assert_eq!(a.tick().energy, b.tick_and_snapshot(decay_delta).energy);
    assert_eq!(a.energy(), 600_000 - 804);
}

#[test]
fn energy_stays_in_range_over_a_mixed_run() {
    let mut state = ActivityState::new(20_000, Vec::new(), 0);
    for round in 0..200u64 {
        for _ in 0..(round % 7) {
            state.record_click(round);
        }
        for _ in 0..(round % 3) {
            state.record_key(round);
        }
        if round % 4 == 0 {
            boost_energy(&mut state);
        }
        assert!(0 <= state.energy() && state.energy() <= MAX_ENERGY);
        let snap = state.tick();
        assert!(0 <= snap.energy && snap.energy <= MAX_ENERGY);
    }
}
