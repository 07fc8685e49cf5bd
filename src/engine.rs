//! The pump update rule: from a new pump reading and the current levels to
//! the new levels, or to nothing when the pump barely moved.
use vstd::prelude::*;

verus! {

/// The fixed-point value of 1.0.
pub const UNIT: i32 = 1_000_000;

/// Pump movements smaller than this (0.01) are treated as noise.
pub const DEAD_ZONE: i32 = 10_000;

/// The distance between two readings.
pub open spec fn abs_diff(a: int, b: int) -> int {
    if a >= b {
        a - b
    } else {
        b - a
    }
}

pub open spec fn max_int(a: int, b: int) -> int {
    if a >= b {
        a
    } else {
        b
    }
}

pub open spec fn min_int(a: int, b: int) -> int {
    if a <= b {
        a
    } else {
        b
    }
}

/// How far a pump movement of `pump_delta` inflates, before any of it is
/// spent on deflation: `pump_delta * modifier`, rounded down to a millionth.
pub open spec fn scaled_delta(pump_delta: int, modifier: int) -> int {
    pump_delta * modifier / (UNIT as int)
}

/// The new `(deflate, inflate, overinflate)` levels, or `None` inside the
/// dead zone.
///
/// A positive deflate level is drained first. What is left to inflate is the
/// scaled movement less the deflate level as it was before draining. When
/// inflate would pass 1.0 it stops at 1.0, and the whole remaining movement is
/// added to overinflate, which stops at 1.0 too.
pub open spec fn update_levels(
    pump: int,
    last_pump: int,
    deflate: int,
    inflate: int,
    overinflate: int,
    modifier: int,
) -> Option<(int, int, int)> {
    let pump_delta = abs_diff(pump, last_pump);
    if pump_delta < DEAD_ZONE as int {
        None
    } else {
        let delta = scaled_delta(pump_delta, modifier);
        let new_deflate = if deflate > 0 { max_int(0, deflate - delta) } else { deflate };
        let rest = if deflate > 0 { max_int(0, delta - deflate) } else { delta };
        let raw_inflate = inflate + rest;
        if raw_inflate > UNIT as int {
            Some((new_deflate, UNIT as int, min_int(UNIT as int, overinflate + rest)))
        } else {
            Some((new_deflate, raw_inflate, overinflate))
        }
    }
}

/// The levels of [`update_levels`] as machine integers.
pub open spec fn levels_match(r: Option<(i32, i32, i32)>, s: Option<(int, int, int)>) -> bool {
    match r {
        None => s is None,
        Some((d, i, o)) => s == Some((d as int, i as int, o as int)),
    }
}

/// Applies one pump reading to the levels.
///
/// Returns `None` when the pump moved less than [`DEAD_ZONE`] since
/// `last_pump_position`, and otherwise the new `(deflate, inflate,
/// overinflate)` as [`update_levels`] gives them.
pub fn pump_update(
    pump_position: i32,
    last_pump_position: i32,
    deflate: i32,
    inflate: i32,
    overinflate: i32,
    pump_modifier: u32,
) -> (r: Option<(i32, i32, i32)>)
    ensures
        levels_match(
            r,
            update_levels(
                pump_position as int,
                last_pump_position as int,
                deflate as int,
                inflate as int,
                overinflate as int,
                pump_modifier as int,
            ),
        ),
        r is None <==> abs_diff(pump_position as int, last_pump_position as int) < DEAD_ZONE as int,
{
    let diff: i64 = pump_position as i64 - last_pump_position as i64;
    let pump_delta: i64 = if diff >= 0 { diff } else { -diff };
    if pump_delta < DEAD_ZONE as i64 {
        return None;
    }
    assert(0 <= pump_delta <= u32::MAX);
    proof {
        assert(pump_delta * pump_modifier <= u32::MAX as int * u32::MAX as int) by (nonlinear_arith)
            requires
                0 <= pump_delta <= u32::MAX,
                pump_modifier <= u32::MAX,
        ;
    }
    let product: u64 = pump_delta as u64 * pump_modifier as u64;
    assert(product as int / 1_000_000 <= u64::MAX as int / 1_000_000) by (nonlinear_arith)
        requires
            product <= u64::MAX,
    ;
    let mut inflate_delta: i64 = (product / UNIT as u64) as i64;
    let mut new_deflate: i64 = deflate as i64;
    if deflate > 0 {
        new_deflate = if deflate as i64 - inflate_delta > 0 { deflate as i64 - inflate_delta } else { 0 };
        inflate_delta = if inflate_delta - deflate as i64 > 0 { inflate_delta - deflate as i64 } else { 0 };
    }
    let mut new_inflate: i64 = inflate as i64 + inflate_delta;
    let mut new_overinflate: i64 = overinflate as i64;
    if new_inflate > UNIT as i64 {
        new_inflate = UNIT as i64;
        new_overinflate = if overinflate as i64 + inflate_delta < UNIT as i64 {
            overinflate as i64 + inflate_delta
        } else {
            UNIT as i64
        };
    }
    Some((new_deflate as i32, new_inflate as i32, new_overinflate as i32))
}

/// A scaled movement is never negative.
proof fn lemma_scaled_delta_nonneg(pump_delta: int, modifier: int)
    requires
        0 <= pump_delta,
        0 <= modifier,
    ensures
        0 <= scaled_delta(pump_delta, modifier),
{
    assert(0 <= pump_delta * modifier) by (nonlinear_arith)
        requires
            0 <= pump_delta,
            0 <= modifier,
    ;
}

/// An update keeps the levels in range: deflate stays non-negative, inflate
/// and overinflate stay between 0 and 1.0, whenever deflate and inflate start
/// non-negative and overinflate starts between 0 and 1.0.
pub proof fn lemma_update_keeps_ranges(
    pump: int,
    last_pump: int,
    deflate: int,
    inflate: int,
    overinflate: int,
    modifier: nat,
)
    requires
        0 <= deflate,
        0 <= inflate,
        0 <= overinflate <= UNIT as int,
    ensures
        update_levels(pump, last_pump, deflate, inflate, overinflate, modifier as int) matches Some(
            (d, i, o),
        ) ==> 0 <= d && 0 <= i <= UNIT as int && 0 <= o <= UNIT as int,
{
    lemma_scaled_delta_nonneg(abs_diff(pump, last_pump), modifier as int);
}

/// A reading equal to the last one never changes the levels.
pub proof fn lemma_still_pump_is_noop(
    pump: int,
    deflate: int,
    inflate: int,
    overinflate: int,
    modifier: int,
)
    ensures
        update_levels(pump, pump, deflate, inflate, overinflate, modifier) is None,
{
}

} // verus!
