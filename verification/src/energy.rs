//! Fixed-point energy arithmetic: the scale, the costs of the three kinds of
//! input, and the clamped operations on a single energy value.

use vstd::prelude::*;

verus! {

/// Units in one point of energy.
pub const UNITS_PER_POINT: i64 = 10_000;

/// The upper end of the energy range: 100 points.
pub const MAX_ENERGY: i64 = 1_000_000;

/// The energy a state starts with when none is configured: 100 points.
pub const DEFAULT_ENERGY: i64 = 1_000_000;

/// What one boost adds: 5 points.
pub const BOOST_AMOUNT: u64 = 50_000;

/// Decay per key press: 0.2 / 10 of a point.
pub const KEY_COST: u64 = 200;

/// Decay per button press: 1.0 / 10 of a point.
pub const CLICK_COST: u64 = 1_000;

/// Decay per pointer move: 0.001 / 10 of a point.
pub const MOVE_COST: u64 = 1;

/// `e` brought into the range from 0 to `MAX_ENERGY`.
pub open spec fn clamped(e: int) -> int {
    if e < 0 {
        0
    } else if e > MAX_ENERGY {
        MAX_ENERGY as int
    } else {
        e
    }
}

/// Whether `e` lies in the range from 0 to `MAX_ENERGY`.
pub open spec fn in_range(e: int) -> bool {
    0 <= e <= MAX_ENERGY
}

/// The decay, in units, that the given counts of events cause.
pub open spec fn decay_units(keys: nat, clicks: nat, moves: nat) -> nat {
    keys * (KEY_COST as nat) + clicks * (CLICK_COST as nat) + moves * (MOVE_COST as nat)
}

/// The energy after `amount` is added to `e`, brought into range. From
/// energy in range that is the sum, capped at `MAX_ENERGY`.
pub open spec fn boosted(e: int, amount: nat) -> int {
    clamped(e + amount)
}

/// The energy after `delta` is taken from `e`, brought into range.
pub open spec fn decayed(e: int, delta: nat) -> int {
    clamped(e - delta)
}

/// The energy to start with: the configured value brought into range, or
/// `DEFAULT_ENERGY` where none could be read.
pub open spec fn configured_or_default(configured: Option<i64>) -> int {
    match configured {
        Some(e) => clamped(e as int),
        None => DEFAULT_ENERGY as int,
    }
}

/// The units agree with the decay in points,
/// `(0.2 * keys + 1.0 * clicks + 0.001 * moves) / 10`. With the three weights
/// written as thousandths (200, 1000 and 1) the decay in points is
/// `(200 * keys + 1000 * clicks + moves) / (1000 * 10)`; a decay in units is
/// `UNITS_PER_POINT` times that, which is the equation below with both sides
/// multiplied by `1000 * 10`.
pub proof fn lemma_decay_matches_formula(keys: nat, clicks: nat, moves: nat)
    ensures
        decay_units(keys, clicks, moves) * 1000 * 10 == (200 * keys + 1000 * clicks + moves)
            * UNITS_PER_POINT,
{
}

/// The decay of one tick for the given counts:
/// 200 units a key press, 1000 a button press, 1 a pointer move.
pub fn decay_delta(keys: u64, clicks: u64, moves: u64) -> (delta: u128)
    ensures
        delta == decay_units(keys as nat, clicks as nat, moves as nat),
{
    let k: u128 = keys as u128;
    let c: u128 = clicks as u128;
    let m: u128 = moves as u128;
    let key_part: u128 = k * 200;
    let click_part: u128 = c * 1_000;
    key_part + click_part + m
}

/// Brings `energy` into the range from 0 to `MAX_ENERGY`.
pub fn clamp_energy(energy: i64) -> (r: i64)
    ensures
        r == clamped(energy as int),
        in_range(r as int),
{
    if energy < 0 {
        0
    } else if energy > MAX_ENERGY {
        MAX_ENERGY
    } else {
        energy
    }
}

/// Adds `amount` to `energy` and brings the sum into range.
pub fn apply_boost(energy: i64, amount: u64) -> (r: i64)
    ensures
        r == boosted(energy as int, amount as nat),
        in_range(r as int),
{
    let sum: i128 = (energy as i128) + (amount as i128);
    if sum > MAX_ENERGY as i128 {
        MAX_ENERGY
    } else if sum < 0 {
        0
    } else {
        sum as i64
    }
}

/// Takes `delta` from `energy` and brings the difference into range.
pub fn apply_decay(energy: i64, delta: u128) -> (r: i64)
    ensures
        r == decayed(energy as int, delta as nat),
        in_range(r as int),
{
    if energy <= 0 {
        0
    } else if delta >= energy as u128 {
        0
    } else {
        let rest: i64 = energy - (delta as i64);
        if rest > MAX_ENERGY {
            MAX_ENERGY
        } else {
            rest
        }
    }
}

/// Picks the starting energy: the configured value where there is one,
/// brought into range, else `DEFAULT_ENERGY`.
pub fn energy_or_default(configured: Option<i64>) -> (e: i64)
    ensures
        e == configured_or_default(configured),
        in_range(e as int),
{
    match configured {
        Some(e) => clamp_energy(e),
        None => DEFAULT_ENERGY,
    }
}

} // verus!
