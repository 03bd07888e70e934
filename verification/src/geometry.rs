//! Fixed-point lengths and two-dimensional vectors.
//!
//! Scroll positions, offsets and input deltas are fixed-point numbers: an
//! `i64` that counts sub-units, [`UNIT`] of them to one whole unit. A whole
//! unit is one display row on the vertical axis, one column on the horizontal
//! axis, and one unit of scroll input in a delta. Sums that leave the range
//! of `i64` stop at its ends.

use vstd::prelude::*;

verus! {

/// Number of sub-units in one whole unit.
pub const UNIT: i64 = 65_536;

/// The value of `i64` nearest to `v`.
pub open spec fn saturate(v: int) -> i64 {
    if v < i64::MIN {
        i64::MIN
    } else if v > i64::MAX {
        i64::MAX
    } else {
        v as i64
    }
}

/// The length of `n` whole units, in sub-units.
pub open spec fn units(n: u32) -> int {
    n * UNIT
}

/// The number of whole units that fit into `v`: the length rounded towards
/// zero, with a negative length counted as none and a count beyond `u32`
/// stopped at `u32::MAX`.
pub open spec fn whole_units(v: i64) -> u32 {
    if v <= 0 {
        0
    } else if (v as int) / (UNIT as int) > u32::MAX {
        u32::MAX
    } else {
        ((v as int) / (UNIT as int)) as u32
    }
}

/// The size of `v` without its sign.
pub open spec fn magnitude(v: i64) -> nat {
    if v < 0 {
        (-v) as nat
    } else {
        v as nat
    }
}

/// Adds two lengths, stopping at the ends of `i64`.
pub fn saturating_sum(a: i64, b: i64) -> (sum: i64)
    ensures
        sum == saturate(a + b),
{
    let wide: i128 = a as i128 + b as i128;
    if wide > i64::MAX as i128 {
        i64::MAX
    } else if wide < i64::MIN as i128 {
        i64::MIN
    } else {
        wide as i64
    }
}

/// Moves `from` on by `by` less one whole unit, stopping at the ends of
/// `i64`.
pub fn advance_less_one(from: i64, by: i64) -> (to: i64)
    ensures
        to == saturate(from + by - UNIT),
{
    let wide: i128 = from as i128 + by as i128 - UNIT as i128;
    if wide > i64::MAX as i128 {
        i64::MAX
    } else if wide < i64::MIN as i128 {
        i64::MIN
    } else {
        wide as i64
    }
}

/// The length of `n` whole units.
pub fn length_of_units(n: u32) -> (len: i64)
    ensures
        len == units(n),
        0 <= len <= u32::MAX * UNIT,
{
    (n as i64) * UNIT
}

/// Counts the whole units in `v`, as [`whole_units`] defines it.
pub fn count_whole_units(v: i64) -> (n: u32)
    ensures
        n == whole_units(v),
{
    if v <= 0 {
        0
    } else {
        let count: i64 = v / UNIT;
        if count > u32::MAX as i64 {
            u32::MAX
        } else {
            count as u32
        }
    }
}

/// The size of `v` without its sign.
pub fn size_of_length(v: i64) -> (m: u64)
    ensures
        m == magnitude(v),
{
    if v < 0 {
        let wide: i128 = -(v as i128);
        wide as u64
    } else {
        v as u64
    }
}

/// A pair of lengths: a horizontal and a vertical one.
#[derive(Clone, Copy, Debug, PartialEq, Eq, Structural)]
pub struct Vector2 {
    pub x: i64,
    pub y: i64,
}

impl Vector2 {
    /// The vector without length.
    pub open spec fn spec_zero() -> Vector2 {
        Vector2 { x: 0, y: 0 }
    }

    /// The larger of the two vectors' components, on each axis.
    pub open spec fn spec_max(self, other: Vector2) -> Vector2 {
        Vector2 {
            x: if self.x >= other.x { self.x } else { other.x },
            y: if self.y >= other.y { self.y } else { other.y },
        }
    }

    /// The sum of the two vectors, each component stopped at the ends of
    /// `i64`.
    pub open spec fn spec_plus(self, other: Vector2) -> Vector2 {
        Vector2 { x: saturate(self.x + other.x), y: saturate(self.y + other.y) }
    }

    pub fn new(x: i64, y: i64) -> (v: Vector2)
        ensures
            v == (Vector2 { x, y }),
    {
        Vector2 { x, y }
    }

    #[verifier::when_used_as_spec(spec_zero)]
    pub fn zero() -> (v: Vector2)
        ensures
            v == Vector2::spec_zero(),
    {
        Vector2 { x: 0, y: 0 }
    }

    #[verifier::when_used_as_spec(spec_max)]
    pub fn max(self, other: Vector2) -> (v: Vector2)
        ensures
            v == self.spec_max(other),
    {
        Vector2 {
            x: if self.x >= other.x { self.x } else { other.x },
            y: if self.y >= other.y { self.y } else { other.y },
        }
    }

    #[verifier::when_used_as_spec(spec_plus)]
    pub fn plus(self, other: Vector2) -> (v: Vector2)
        ensures
            v == self.spec_plus(other),
    {
        Vector2 { x: saturating_sum(self.x, other.x), y: saturating_sum(self.y, other.y) }
    }
}

} // verus!
