//! Fixed-point arithmetic shared by every scene.
//!
//! A quantity is held as a whole number of millionths: lengths and radii in
//! millionths of a world unit, angles in microradians, time in microseconds,
//! phases and other fractions of one as a count below [`SCALE`].
use vstd::arithmetic::div_mod::*;
use vstd::prelude::*;

verus! {

/// Raw value of the number one.
pub const SCALE: u32 = 1_000_000;

/// A full turn, in microradians.
pub const TAU: i32 = 6_283_185;

/// `v` held within `lo..=hi`: `lo` where `v` lies below, `hi` where it lies
/// above.
pub open spec fn clamp(v: int, lo: int, hi: int) -> int {
    if v < lo {
        lo
    } else if v > hi {
        hi
    } else {
        v
    }
}

/// Product of two fixed-point values, rounded down to a whole millionth.
pub open spec fn scaled(a: int, b: int) -> int {
    a * b / (SCALE as int)
}

/// Point between `a` and `b` at the fraction `t` of the way, `t` counted in
/// millionths and held within `0..=SCALE`. A reversed pair (`a > b`) is not
/// interpolated: the result is `a`.
pub open spec fn lerp_spec(a: int, b: int, t: int) -> int {
    if a > b {
        a
    } else {
        a + (b - a) * clamp(t, 0, SCALE as int) / (SCALE as int)
    }
}

/// Share of its cycle that a clock at `elapsed` has gone through, in
/// millionths. A cycle that is not positive has no share: the result is 0.
pub open spec fn raw_fraction(elapsed: int, cycle: int) -> int {
    if cycle <= 0 {
        0
    } else {
        (elapsed % cycle) * (SCALE as int) / cycle
    }
}

/// Local phase of a particle: the cycle's share, moved on by the particle's
/// own offset and wrapped back below one. The added `SCALE` keeps the sum
/// from ever being negative before it is wrapped.
pub open spec fn local_phase(elapsed: int, cycle: int, spawn_offset: int) -> int {
    (raw_fraction(elapsed, cycle) + (SCALE as int) + spawn_offset) % (SCALE as int)
}

/// The sine that the host computed for the particle at `index`, held within
/// `-1..=1`; a particle that the list does not reach has the sine 0.
pub open spec fn sine_at(sines: Seq<i32>, index: int) -> int {
    if 0 <= index < sines.len() {
        clamp(sines[index] as int, -(SCALE as int), SCALE as int)
    } else {
        0
    }
}

/// `n` divided by [`SCALE`], rounded down.
pub fn div_scale(n: i128) -> (q: i128)
    ensures
        q == (n as int) / (SCALE as int),
{
    let q: i128 = n / (SCALE as i128);
    let r: i128 = n % (SCALE as i128);
    if r < 0 {
        q - 1
    } else {
        q
    }
}

/// Multiplies two fixed-point values.
pub fn scaled_mul(a: i64, b: i64) -> (r: i128)
    ensures
        r == scaled(a as int, b as int),
{
    proof {
        lemma_product_bounds(a as int, b as int, 0x8000_0000_0000_0000, 0x8000_0000_0000_0000);
    }
    div_scale((a as i128) * (b as i128))
}

/// A product is no larger than the product of its factors' bounds.
pub proof fn lemma_product_bounds(a: int, b: int, ma: int, mb: int)
    requires
        -ma <= a <= ma,
        -mb <= b <= mb,
    ensures
        -(ma * mb) <= a * b <= ma * mb,
{
    assert(-(ma * mb) <= a * b <= ma * mb) by (nonlinear_arith)
        requires
            -ma <= a <= ma,
            -mb <= b <= mb,
    ;
}

/// Interpolates between `a` and `b`; see [`lerp_spec`].
pub fn lerp(a: i64, b: i64, t: u32) -> (r: i64)
    ensures
        r == lerp_spec(a as int, b as int, t as int),
        a <= b ==> a <= r <= b,
{
    if a > b {
        return a;
    }
    let t: u32 = if t > SCALE { SCALE } else { t };
    let span: i128 = (b as i128) - (a as i128);
    proof {
        assert(0 <= span * t <= span * SCALE) by (nonlinear_arith)
            requires
                0 <= span,
                0 <= t <= SCALE,
        ;
    }
    let step: i128 = span * (t as i128) / (SCALE as i128);
    ((a as i128) + step) as i64
}

/// Computes the local phase of a particle; see [`local_phase`].
pub fn phase(elapsed: u64, cycle: i32, spawn_offset: u32) -> (t: u32)
    ensures
        t == local_phase(elapsed as int, cycle as int, spawn_offset as int),
        t < SCALE,
{
    let mut fraction: u64 = 0;
    if cycle > 0 {
        let cycle: u64 = cycle as u64;
        let rest: u64 = elapsed % cycle;
        proof {
            assert(rest * SCALE < cycle * SCALE) by (nonlinear_arith)
                requires
                    0 <= rest < cycle,
            ;
            lemma_multiply_divide_lt(rest * SCALE, cycle as int, SCALE as int);
        }
        fraction = rest * (SCALE as u64) / cycle;
    }
    ((fraction + (SCALE as u64) + (spawn_offset as u64)) % (SCALE as u64)) as u32
}

/// Holds `v` within `lo..=hi`; see [`clamp`].
pub fn clamped(v: i32, lo: i32, hi: i32) -> (r: i32)
    ensures
        r == clamp(v as int, lo as int, hi as int),
        lo <= hi ==> lo <= r <= hi,
{
    if v < lo {
        lo
    } else if v > hi {
        hi
    } else {
        v
    }
}

/// Reads the sine of the particle at `index`; see [`sine_at`].
pub fn pick_sine(sines: &Vec<i32>, index: usize) -> (r: i32)
    ensures
        r == sine_at(sines@, index as int),
        -(SCALE as int) <= r <= SCALE as int,
{
    if index < sines.len() {
        clamped(sines[index], -1_000_000, 1_000_000)
    } else {
        0
    }
}

/// The local phase stays in `[0, 1)`, and it is the same again after any
/// whole number of cycles.
pub proof fn lemma_phase_wraps(elapsed: nat, cycle: int, spawn_offset: nat, cycles: nat)
    requires
        cycle > 0,
    ensures
        0 <= local_phase(elapsed as int, cycle, spawn_offset as int) < SCALE,
        local_phase(elapsed + cycles * cycle, cycle, spawn_offset as int) == local_phase(
            elapsed as int,
            cycle,
            spawn_offset as int,
        ),
{
    lemma_mod_multiples_vanish(cycles as int, elapsed as int, cycle);
    assert(cycle * cycles == cycles * cycle) by (nonlinear_arith);
}

/// Interpolation starts at its first bound and, for a pair in order, ends at
/// its second.
pub proof fn lemma_lerp_boundary(a: int, b: int)
    ensures
        lerp_spec(a, b, 0) == a,
        a <= b ==> lerp_spec(a, b, SCALE as int) == b,
        a > b ==> lerp_spec(a, b, SCALE as int) == a,
{
    assert((b - a) * 0 == 0) by (nonlinear_arith);
    if a <= b {
        lemma_div_multiples_vanish(b - a, SCALE as int);
        assert((b - a) * (SCALE as int) == (SCALE as int) * (b - a)) by (nonlinear_arith);
    }
}

} // verus!
