//! Fixed-point units and the arithmetic shared by the integrators.
//!
//! Every quantity is an integer. Lengths are counted in millionths of a world
//! unit, angles in billionths of a degree, and elapsed time in microseconds.
//! Linear speeds are whole world units per second and angular speeds are
//! thousandths of a degree per second, so a speed multiplied by an elapsed
//! time is already a length or an angle: no division, and no rounding.

use vstd::arithmetic::div_mod::lemma_fundamental_div_mod;
use vstd::arithmetic::div_mod::lemma_fundamental_div_mod_converse;
use vstd::arithmetic::div_mod::lemma_mod_multiples_vanish;
use vstd::arithmetic::div_mod::lemma_small_mod;
use vstd::prelude::*;

verus! {

/// One world unit in position subunits. Direction components use the same
/// scale: a component of `UNIT` is a full 1.
pub const UNIT: i64 = 1_000_000;

/// One degree in angle subunits.
pub const DEGREE: u64 = 1_000_000_000;

/// A quarter of a full turn.
pub const QUARTER_TURN: u64 = 90_000_000_000;

/// A full turn. Orientations are kept below it.
pub const TURN: u64 = 360_000_000_000;

/// The largest magnitude that an intent times a rate times an elapsed time
/// can reach.
pub const CHANGE_LIMIT: i128 = 0x80_0000_0000_0000_0000;

/// The change that `intent` brings at `rate` over `dt`.
pub open spec fn integrated(intent: int, rate: int, dt: int) -> int {
    intent * rate * dt
}

/// `n / d` rounded toward zero, for a positive `d`.
pub open spec fn trunc_div(n: int, d: int) -> int {
    if n >= 0 {
        n / d
    } else {
        -((-n) / d)
    }
}

/// `v` held to the range of a coordinate.
pub open spec fn saturated(v: int) -> int {
    if v < i64::MIN {
        i64::MIN as int
    } else if v > i64::MAX {
        i64::MAX as int
    } else {
        v
    }
}

/// The orientation reached from `angle` by turning through `delta`, counted
/// within one full turn.
pub open spec fn turned(angle: int, delta: int) -> int {
    (angle + delta) % (TURN as int)
}

/// The coordinate reached from `p` by travelling `distance` along a direction
/// whose component on this axis is `direction`.
pub open spec fn advanced(p: int, direction: int, distance: int) -> int {
    saturated(p + trunc_div(direction * distance, UNIT as int))
}

/// The coordinate `p` wrapped into a domain of `size` centred on the origin.
pub open spec fn wrapped(p: int, size: int) -> int {
    (p + size / 2) % size - size / 2
}

/// Whether `p` lies in the domain of `size` centred on the origin: at least
/// minus half of `size` and less than half of it.
pub open spec fn inside(p: int, size: int) -> bool {
    -size <= 2 * p < size
}

/// A change is linear in the elapsed time: over twice the time it is twice as
/// large, and over two times in a row it is the sum of the two changes.
pub proof fn lemma_integrated_linear_in_dt(intent: int, rate: int, dt: int, more: int)
    ensures
        integrated(intent, rate, 2 * dt) == 2 * integrated(intent, rate, dt),
        integrated(intent, rate, dt + more) == integrated(intent, rate, dt) + integrated(
            intent,
            rate,
            more,
        ),
{
    assert(intent * rate * (2 * dt) == 2 * (intent * rate * dt)) by (nonlinear_arith);
    assert(intent * rate * (dt + more) == intent * rate * dt + intent * rate * more)
        by (nonlinear_arith);
}

/// However an intent within -1 and 1 was produced, the change it brings is no
/// larger than the rate allows over the elapsed time, and no intent brings no
/// change.
pub proof fn lemma_integrated_within_cap(intent: int, rate: nat, dt: nat)
    requires
        -1 <= intent <= 1,
    ensures
        -(rate * dt) <= integrated(intent, rate as int, dt as int) <= rate * dt,
        intent == 0 ==> integrated(intent, rate as int, dt as int) == 0,
{
    assert(intent * rate * dt == intent * (rate * dt)) by (nonlinear_arith);
    if intent == -1 {
        assert((-1) * (rate * dt) == -(rate * dt));
    }
}

/// Turning in two goes is turning through the sum: what two frames in a row
/// turn an orientation by is what one frame of both changes turns it by.
pub proof fn lemma_turned_composes(angle: int, first: int, second: int)
    ensures
        turned(turned(angle, first), second) == turned(angle, first + second),
        0 <= turned(angle, first) < TURN,
{
}

/// A wrapped coordinate lies in the domain, differs from the coordinate it
/// came from by a whole number of domain sizes, and is that coordinate itself
/// where it lay in the domain already.
pub proof fn lemma_wrapped_in_domain(p: int, size: int)
    requires
        size > 0,
    ensures
        inside(wrapped(p, size), size),
        (wrapped(p, size) - p) % size == 0,
        inside(p, size) ==> wrapped(p, size) == p,
{
    let half: int = size / 2;
    let shifted: int = p + half;
    lemma_fundamental_div_mod(shifted, size);
    let turns: int = shifted / size;
    assert(wrapped(p, size) - p == size * (-turns) + 0) by (nonlinear_arith)
        requires
            shifted == size * turns + shifted % size,
            shifted == p + half,
            wrapped(p, size) == shifted % size - half,
    ;
    lemma_mod_multiples_vanish(-turns, 0, size);
    if inside(p, size) {
        lemma_small_mod(shifted as nat, size as nat);
    }
}

/// The elapsed time of a frame that took `micros` microseconds: `micros`
/// itself, or the longest time that a frame can take where it took longer.
pub fn frame_time(micros: u128) -> (dt: u32)
    ensures
        dt == (if micros <= u32::MAX { micros as int } else { u32::MAX as int }),
{
    if micros <= u32::MAX as u128 {
        micros as u32
    } else {
        u32::MAX
    }
}

/// Multiplies an intent by a rate and an elapsed time.
pub fn integrate(intent: i8, rate: u32, dt: u32) -> (change: i128)
    ensures
        change == integrated(intent as int, rate as int, dt as int),
        -CHANGE_LIMIT <= change <= CHANGE_LIMIT,
{
    assert(0 <= rate * dt <= 0xFFFF_FFFF * 0xFFFF_FFFF) by (nonlinear_arith)
        requires
            0 <= rate <= 0xFFFF_FFFF,
            0 <= dt <= 0xFFFF_FFFF,
    ;
    let span: i128 = (rate as i128) * (dt as i128);
    assert(-128 * 0xFFFF_FFFE_0000_0001 <= intent * span <= 128 * 0xFFFF_FFFE_0000_0001)
        by (nonlinear_arith)
        requires
            -128 <= intent <= 127,
            0 <= span <= 0xFFFF_FFFE_0000_0001,
    ;
    assert(intent * (rate * dt) == intent * rate * dt) by (nonlinear_arith);
    (intent as i128) * span
}

/// The remainder of `x` by `m`, never negative.
pub fn remainder(x: i128, m: u64) -> (r: u64)
    requires
        m > 0,
    ensures
        r == (x as int) % (m as int),
        r < m,
{
    if x >= 0 {
        ((x as u128) % (m as u128)) as u64
    } else {
        let back: u128 = ((-(x + 1)) as u128) + 1;
        let rest: u64 = (back % (m as u128)) as u64;
        proof {
            let q: int = (back as int) / (m as int);
            lemma_fundamental_div_mod(back as int, m as int);
            if rest == 0 {
                assert(x == (-q) * m + 0) by (nonlinear_arith)
                    requires
                        back == m * q + 0,
                        x == -back,
                ;
                lemma_fundamental_div_mod_converse(x as int, m as int, -q, 0);
            } else {
                assert(x == (-q - 1) * m + (m - rest)) by (nonlinear_arith)
                    requires
                        back == m * q + rest,
                        x == -back,
                ;
                lemma_fundamental_div_mod_converse(x as int, m as int, -q - 1, m - rest);
            }
        }
        if rest == 0 {
            0
        } else {
            m - rest
        }
    }
}

/// Divides `n` by [`UNIT`], rounding toward zero.
pub fn quotient(n: i128) -> (q: i128)
    ensures
        q == trunc_div(n as int, UNIT as int),
{
    if n >= 0 {
        ((n as u128) / (UNIT as u128)) as i128
    } else {
        let back: u128 = ((-(n + 1)) as u128) + 1;
        -((back / (UNIT as u128)) as i128)
    }
}

/// Turns `angle` through `delta` and brings the result back within one turn.
pub fn turn(angle: u64, delta: i128) -> (result: u64)
    ensures
        result == turned(angle as int, delta as int),
        result < TURN,
{
    let base: u64 = angle % TURN;
    let shift: u64 = remainder(delta, TURN);
    let sum: u64 = base + shift;
    if sum >= TURN {
        sum - TURN
    } else {
        sum
    }
}

/// Moves the coordinate `p` by `distance` along a direction whose component on
/// this axis is `direction`, stopping at the ends of the coordinate range.
pub(crate) fn advance(p: i64, direction: i64, distance: i128) -> (result: i64)
    requires
        -UNIT <= direction <= UNIT,
        -CHANGE_LIMIT <= distance <= CHANGE_LIMIT,
    ensures
        result == advanced(p as int, direction as int, distance as int),
{
    assert(-UNIT * CHANGE_LIMIT <= direction * distance <= UNIT * CHANGE_LIMIT)
        by (nonlinear_arith)
        requires
            -UNIT <= direction <= UNIT,
            -CHANGE_LIMIT <= distance <= CHANGE_LIMIT,
    ;
    let step: i128 = quotient((direction as i128) * distance);
    let sum: i128 = (p as i128) + step;
    if sum < i64::MIN as i128 {
        i64::MIN
    } else if sum > i64::MAX as i128 {
        i64::MAX
    } else {
        sum as i64
    }
}

/// Wraps the coordinate `p` into a domain of `size` centred on the origin.
pub fn wrap_coordinate(p: i64, size: u64) -> (result: i64)
    requires
        size > 0,
    ensures
        result == wrapped(p as int, size as int),
        inside(result as int, size as int),
{
    let half: u64 = size / 2;
    let shifted: i128 = (p as i128) + (half as i128);
    let rest: u64 = remainder(shifted, size);
    ((rest as i128) - (half as i128)) as i64
}

} // verus!
