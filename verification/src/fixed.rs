//! Fixed-point scalars and vectors.
//!
//! Every geometric quantity in the core — translations, scales, Euler angles,
//! axis vectors, accumulated input deltas — is carried as a signed 64-bit
//! count of thousandths of a world unit (or of a radian). One world unit is
//! [`FIXED_UNIT`] thousandths. All operations clamp their result into
//! `[-COORD_LIMIT, COORD_LIMIT]`, so every function here is total and the
//! stored state never leaves that range once written through these helpers.
//! Division truncates toward zero, matching the host's float `trunc`.

use vstd::prelude::*;

verus! {

use vstd::arithmetic::div_mod::{lemma_div_nonincreasing, lemma_div_pos_is_pos};

/// Thousandths in one world unit (or radian).
pub const FIXED_UNIT: i64 = 1000;

/// Largest coordinate magnitude the model carries, in thousandths.
pub const COORD_LIMIT: i64 = 1_000_000_000_000_000;

/// Divisor realising the 0.01 scale from raw pointer motion to world delta.
pub const INPUT_DIVISOR: u64 = 100;

/// Truncating (toward zero) division, the meaning of every `/` in this core.
pub open spec fn div_trunc(n: int, d: int) -> int {
    if n >= 0 {
        n / d
    } else {
        -((-n) / d)
    }
}

/// Clamp `n` into `[-lim, lim]`.
pub open spec fn clamp_spec(n: int, lim: int) -> int {
    if n < -lim {
        -lim
    } else if n > lim {
        lim
    } else {
        n
    }
}

/// `clamp_spec` into the model's coordinate range.
pub open spec fn clamp_coord_spec(n: int) -> int {
    clamp_spec(n, COORD_LIMIT as int)
}

/// Magnitude of a truncating division never exceeds the dividend's.
pub proof fn lemma_div_trunc_bounds(n: int, d: int)
    requires
        d >= 1,
    ensures
        n >= 0 ==> 0 <= div_trunc(n, d) <= n,
        n < 0 ==> n <= div_trunc(n, d) <= 0,
{
    if n >= 0 {
        lemma_div_nonincreasing(n, d);
        lemma_div_pos_is_pos(n, d);
    } else {
        lemma_div_nonincreasing(-n, d);
        lemma_div_pos_is_pos(-n, d);
    }
}

/// Truncating division on `i128`, toward zero.
pub(crate) fn div_trunc_i128(n: i128, d: u64) -> (r: i128)
    requires
        d > 0,
        n > i128::MIN,
    ensures
        r == div_trunc(n as int, d as int),
        n >= 0 ==> 0 <= r <= n,
        n < 0 ==> n <= r <= 0,
{
    if n >= 0 {
        let q: u128 = (n as u128) / (d as u128);
        proof {
            lemma_div_nonincreasing(n as int, d as int);
            lemma_div_pos_is_pos(n as int, d as int);
        }
        q as i128
    } else {
        let m: u128 = (-n) as u128;
        let q: u128 = m / (d as u128);
        proof {
            lemma_div_nonincreasing(m as int, d as int);
            lemma_div_pos_is_pos(m as int, d as int);
        }
        -(q as i128)
    }
}

/// Clamp an `i128` into `[-lim, lim]` and narrow it to `i64`.
pub(crate) fn clamp_i128(n: i128, lim: i64) -> (r: i64)
    requires
        lim >= 0,
    ensures
        r == clamp_spec(n as int, lim as int),
{
    let neg: i128 = -(lim as i128);
    if n < neg {
        -lim
    } else if n > lim as i128 {
        lim
    } else {
        n as i64
    }
}

/// `clamp_spec(a + b, lim)`, computed without overflow.
pub fn add_clamp(a: i64, b: i64, lim: i64) -> (r: i64)
    requires
        lim >= 0,
    ensures
        r == clamp_spec(a + b, lim as int),
{
    let s: i128 = (a as i128) + (b as i128);
    clamp_i128(s, lim)
}

/// `clamp_spec(div_trunc(a * b, d), lim)`, computed without overflow.
pub fn mul_div_clamp(a: i64, b: i64, d: u64, lim: i64) -> (r: i64)
    requires
        d > 0,
        lim >= 0,
    ensures
        r == clamp_spec(div_trunc(a * b, d as int), lim as int),
{
    proof {
        assert(-0x40000000000000000000000000000000 <= (a as int) * (b as int)
            <= 0x40000000000000000000000000000000) by (nonlinear_arith)
            requires
                -0x8000000000000000 <= a as int <= 0x7fffffffffffffff,
                -0x8000000000000000 <= b as int <= 0x7fffffffffffffff,
        ;
    }
    let p: i128 = (a as i128) * (b as i128);
    let q: i128 = div_trunc_i128(p, d);
    clamp_i128(q, lim)
}

/// Raw pointer motion scaled to a world delta by the 0.01 convention:
/// divided by [`INPUT_DIVISOR`], truncated toward zero, clamped into the
/// coordinate range.
pub open spec fn scaled_input_spec(m: int) -> int {
    clamp_coord_spec(div_trunc(m, INPUT_DIVISOR as int))
}

/// Exec counterpart of [`scaled_input_spec`].
pub fn scale_input(m: i64) -> (r: i64)
    ensures
        r == scaled_input_spec(m as int),
        -COORD_LIMIT <= r <= COORD_LIMIT,
{
    proof {
        assert((m as int) * 1 == m as int) by (nonlinear_arith);
    }
    mul_div_clamp(m, 1, INPUT_DIVISOR, COORD_LIMIT)
}

/// The accumulated delta a session actually uses: truncated toward zero to a
/// whole unit while the snap modifier is held, the raw value otherwise.
pub open spec fn effective_delta_spec(d: int, snapping: bool) -> int {
    if snapping {
        div_trunc(d, FIXED_UNIT as int) * (FIXED_UNIT as int)
    } else {
        d
    }
}

/// Exec counterpart of [`effective_delta_spec`].
pub fn effective_delta(d: i64, snapping: bool) -> (r: i64)
    ensures
        r == effective_delta_spec(d as int, snapping),
{
    if snapping {
        let q: i128 = div_trunc_i128(d as i128, FIXED_UNIT as u64);
        proof {
            if d >= 0 {
                vstd::arithmetic::div_mod::lemma_fundamental_div_mod(d as int, 1000);
                vstd::arithmetic::div_mod::lemma_remainder_upper(d as int, 1000);
                vstd::arithmetic::div_mod::lemma_remainder_lower(d as int, 1000);
                assert(0 <= q * 1000 <= d);
            } else {
                vstd::arithmetic::div_mod::lemma_fundamental_div_mod(-(d as int), 1000);
                vstd::arithmetic::div_mod::lemma_remainder_upper(-(d as int), 1000);
                vstd::arithmetic::div_mod::lemma_remainder_lower(-(d as int), 1000);
                assert(d <= q * 1000 <= 0);
            }
        }
        (q as i64) * 1000
    } else {
        d
    }
}

/// A fixed-point vector: three thousandth-scaled components.
#[derive(Clone, Copy, PartialEq, Eq, Structural, Debug)]
pub struct V3 {
    pub x: i64,
    pub y: i64,
    pub z: i64,
}

impl V3 {
    /// The zero vector.
    pub fn zero() -> (r: V3)
        ensures
            r == (V3 { x: 0, y: 0, z: 0 }),
    {
        V3 { x: 0, y: 0, z: 0 }
    }

    /// One world unit along the chosen basis direction.
    pub fn unit_x() -> (r: V3)
        ensures
            r == (V3 { x: FIXED_UNIT as i64, y: 0, z: 0 }),
    {
        V3 { x: FIXED_UNIT, y: 0, z: 0 }
    }

    /// One world unit along the chosen basis direction.
    pub fn unit_y() -> (r: V3)
        ensures
            r == (V3 { x: 0, y: FIXED_UNIT as i64, z: 0 }),
    {
        V3 { x: 0, y: FIXED_UNIT, z: 0 }
    }

    /// One world unit along the chosen basis direction.
    pub fn unit_z() -> (r: V3)
        ensures
            r == (V3 { x: 0, y: 0, z: FIXED_UNIT as i64 }),
    {
        V3 { x: 0, y: 0, z: FIXED_UNIT }
    }

    /// One world unit along every axis.
    pub fn one() -> (r: V3)
        ensures
            r == (V3 { x: FIXED_UNIT as i64, y: FIXED_UNIT as i64, z: FIXED_UNIT as i64 }),
    {
        V3 { x: FIXED_UNIT, y: FIXED_UNIT, z: FIXED_UNIT }
    }
}

/// Componentwise clamped sum.
pub open spec fn v3_add_spec(a: V3, b: V3) -> V3 {
    V3 {
        x: clamp_coord_spec(a.x + b.x) as i64,
        y: clamp_coord_spec(a.y + b.y) as i64,
        z: clamp_coord_spec(a.z + b.z) as i64,
    }
}

/// Exec counterpart of [`v3_add_spec`].
pub fn v3_add(a: V3, b: V3) -> (r: V3)
    ensures
        r == v3_add_spec(a, b),
{
    V3 {
        x: add_clamp(a.x, b.x, COORD_LIMIT),
        y: add_clamp(a.y, b.y, COORD_LIMIT),
        z: add_clamp(a.z, b.z, COORD_LIMIT),
    }
}

/// Componentwise clamp into the coordinate range.
pub open spec fn v3_clamp_spec(a: V3) -> V3 {
    V3 {
        x: clamp_coord_spec(a.x as int) as i64,
        y: clamp_coord_spec(a.y as int) as i64,
        z: clamp_coord_spec(a.z as int) as i64,
    }
}

/// Exec counterpart of [`v3_clamp_spec`].
pub fn v3_clamp(a: V3) -> (r: V3)
    ensures
        r == v3_clamp_spec(a),
{
    V3 {
        x: add_clamp(a.x, 0, COORD_LIMIT),
        y: add_clamp(a.y, 0, COORD_LIMIT),
        z: add_clamp(a.z, 0, COORD_LIMIT),
    }
}

/// The axis scaled by a fixed-point factor: each component is
/// `axis_component * k / FIXED_UNIT`, truncated toward zero and clamped.
pub open spec fn v3_scale_spec(a: V3, k: int) -> V3 {
    V3 {
        x: clamp_coord_spec(div_trunc(a.x * k, FIXED_UNIT as int)) as i64,
        y: clamp_coord_spec(div_trunc(a.y * k, FIXED_UNIT as int)) as i64,
        z: clamp_coord_spec(div_trunc(a.z * k, FIXED_UNIT as int)) as i64,
    }
}

/// Exec counterpart of [`v3_scale_spec`].
pub fn v3_scale(a: V3, k: i64) -> (r: V3)
    ensures
        r == v3_scale_spec(a, k as int),
{
    V3 {
        x: mul_div_clamp(a.x, k, FIXED_UNIT as u64, COORD_LIMIT),
        y: mul_div_clamp(a.y, k, FIXED_UNIT as u64, COORD_LIMIT),
        z: mul_div_clamp(a.z, k, FIXED_UNIT as u64, COORD_LIMIT),
    }
}

} // verus!
