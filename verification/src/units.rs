//! The fixed-point grid on which the game is played.
//!
//! * A length or coordinate counts billionths of a playfield unit.
//! * A speed counts thousandths of a unit per second.
//! * A time step counts microseconds.
//!
//! The three scales fit together: a speed multiplied by a time step is a
//! length, with nothing left to round.

use vstd::prelude::*;

verus! {

/// One playfield unit, as a length.
pub const UNIT: i64 = 1_000_000_000;

/// Half a playfield unit, as a length.
pub const HALF_UNIT: i64 = 500_000_000;

/// One unit per second, as a speed.
pub const UNIT_PER_SECOND: i64 = 1_000;

/// One second, as a time step.
pub const SECOND: u64 = 1_000_000;

/// The length of `units` whole playfield units.
pub fn length(units: u32) -> (l: i64)
    ensures
        l == units * UNIT,
{
    let n: i64 = units as i64;
    n * UNIT
}

/// Half the length of `units` whole playfield units.
pub fn half_length(units: u32) -> (l: i64)
    ensures
        l == units * HALF_UNIT,
        2 * l == units * UNIT,
{
    let n: i64 = units as i64;
    n * HALF_UNIT
}

/// The speed of `units` whole playfield units per second.
pub fn speed(units: i32) -> (s: i64)
    ensures
        s == units * UNIT_PER_SECOND,
{
    let n: i64 = units as i64;
    n * UNIT_PER_SECOND
}

/// The way travelled at `speed` during `dt`, as a length. It is negative
/// where the speed is.
pub open spec fn travel(speed: int, dt: int) -> int {
    speed * dt
}

/// One unit per second, kept up for one second, covers one unit.
pub proof fn lemma_scales_agree()
    ensures
        travel(UNIT_PER_SECOND as int, SECOND as int) == UNIT,
{
    assert(1_000int * 1_000_000int == 1_000_000_000int) by (nonlinear_arith);
}

/// Travel adds up over consecutive time steps.
pub proof fn lemma_travel_adds(speed: int, dt1: int, dt2: int)
    ensures
        travel(speed, dt1 + dt2) == travel(speed, dt1) + travel(speed, dt2),
{
    assert(speed * (dt1 + dt2) == speed * dt1 + speed * dt2) by (nonlinear_arith);
}

/// Travel follows the sign of the speed and grows with the time step.
pub proof fn lemma_travel_sign(speed: int, dt: int)
    requires
        dt >= 0,
    ensures
        speed >= 0 ==> travel(speed, dt) >= 0,
        speed <= 0 ==> travel(speed, dt) <= 0,
        speed > 0 && dt > 0 ==> travel(speed, dt) > 0,
        speed < 0 && dt > 0 ==> travel(speed, dt) < 0,
{
    assert(speed >= 0 ==> speed * dt >= 0) by (nonlinear_arith)
        requires dt >= 0;
    assert(speed <= 0 ==> speed * dt <= 0) by (nonlinear_arith)
        requires dt >= 0;
    assert(speed > 0 && dt > 0 ==> speed * dt > 0) by (nonlinear_arith);
    assert(speed < 0 && dt > 0 ==> speed * dt < 0) by (nonlinear_arith);
}

/// A speed and a time step of machine size travel a way that, added to a
/// coordinate of machine size, still fits sixteen bytes.
pub proof fn lemma_travel_bounded(speed: i64, dt: u64)
    ensures
        -0x7fff_ffff_ffff_ffff_8000_0000_0000_0000 <= travel(speed as int, dt as int),
        travel(speed as int, dt as int) <= 0x7fff_ffff_ffff_ffff_8000_0000_0000_0000,
{
    let s: int = speed as int;
    let t: int = dt as int;
    assert(s * t <= 0x7fff_ffff_ffff_ffff_8000_0000_0000_0000) by (nonlinear_arith)
        requires
            -0x8000_0000_0000_0000 <= s <= 0x8000_0000_0000_0000,
            0 <= t <= 0xffff_ffff_ffff_ffff;
    assert(s * t >= -0x7fff_ffff_ffff_ffff_8000_0000_0000_0000) by (nonlinear_arith)
        requires
            -0x8000_0000_0000_0000 <= s <= 0x8000_0000_0000_0000,
            0 <= t <= 0xffff_ffff_ffff_ffff;
}

} // verus!
