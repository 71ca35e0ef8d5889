//! Integer vectors, timers and scaling by elapsed time.
//!
//! Lengths are thousandths of a world unit, speeds are thousandths of a unit
//! per second, times are microseconds.

use vstd::prelude::*;

verus! {

/// Microseconds in one second.
pub const MICROS_PER_SECOND: u64 = 1_000_000;

/// The length that stands for one in the axes of a `Rotation` and in a
/// heading.
pub const ROTATION_UNIT: i32 = 1_000_000;

/// A point or a displacement, each component in thousandths of a world unit.
#[derive(Clone, Copy, PartialEq, Eq, Structural, Debug)]
pub struct Vec3 {
    pub x: i32,
    pub y: i32,
    pub z: i32,
}

/// An orientation, given by where it turns the three unit axes. Each image
/// is scaled by `ROTATION_UNIT`.
#[derive(Clone, Copy, PartialEq, Eq, Structural, Debug)]
pub struct Rotation {
    pub x_axis: Vec3,
    pub y_axis: Vec3,
    pub z_axis: Vec3,
}

/// Where an entity stands and how it is turned.
#[derive(Clone, Copy, PartialEq, Eq, Structural, Debug)]
pub struct Transform {
    pub translation: Vec3,
    pub rotation: Rotation,
}

/// What was found behind an optional reference.
pub open spec fn found<T>(reference: Option<&T>) -> Option<T> {
    match reference {
        Some(value) => Some(*value),
        None => None,
    }
}

/// `n` divided by `d`, rounded toward zero.
pub open spec fn toward_zero(n: int, d: int) -> int {
    if n >= 0 {
        n / d
    } else {
        -((-n) / d)
    }
}

/// One component of a turned vector: the three components of the vector
/// weighed by one row of the rotation.
pub open spec fn blended(a: int, p: int, b: int, q: int, c: int, r: int) -> int {
    clamp_i32(toward_zero(a * p + b * q + c * r, ROTATION_UNIT as int))
}

/// `v` held to the range of `i32`.
pub open spec fn clamp_i32(v: int) -> int {
    if v < i32::MIN {
        i32::MIN as int
    } else if v > i32::MAX {
        i32::MAX as int
    } else {
        v
    }
}

/// What a quantity that changes by `rate` per second gains in `dt`
/// microseconds, rounded toward zero.
pub open spec fn gain(rate: int, dt: int) -> int {
    if rate >= 0 {
        (rate * dt) / (MICROS_PER_SECOND as int)
    } else {
        -(((-rate) * dt) / (MICROS_PER_SECOND as int))
    }
}

/// `value` scaled by `factor` thousandths, rounded toward zero and held to
/// the range of `i32`.
pub open spec fn damped(value: int, factor: int) -> int {
    clamp_i32(toward_zero(value * factor, 1000))
}

/// A timer that counts down by `dt` and stops at zero.
pub open spec fn counted_down(timer: u64, dt: u64) -> u64 {
    if timer > dt {
        (timer - dt) as u64
    } else {
        0
    }
}

/// The time that the frames take together, in microseconds.
pub open spec fn elapsed(frames: Seq<u64>) -> int
    decreases frames.len(),
{
    if frames.len() == 0 {
        0
    } else {
        elapsed(frames.drop_last()) + frames.last()
    }
}

/// Counts `timer` down by `dt`, stopping at zero.
pub fn count_down(timer: u64, dt: u64) -> (left: u64)
    ensures
        left == counted_down(timer, dt),
{
    if timer > dt {
        timer - dt
    } else {
        0
    }
}

/// `value` after `dt` microseconds of change at `rate` per second, held to
/// the range of `i32`.
pub fn advance(value: i32, rate: i32, dt: u64) -> (moved: i32)
    ensures
        moved == clamp_i32(value + gain(rate as int, dt as int)),
{
    let magnitude: u128 = if rate >= 0 {
        rate as u128
    } else {
        (-(rate as i64)) as u128
    };
    assert(magnitude * (dt as u128) <= 0x8000_0000 * 0xffff_ffff_ffff_ffff) by (nonlinear_arith)
        requires
            magnitude <= 0x8000_0000,
            dt <= 0xffff_ffff_ffff_ffff,
    ;
    let change: u128 = (magnitude * (dt as u128)) / (MICROS_PER_SECOND as u128);
    if rate >= 0 {
        let limit: u128 = (i32::MAX as i64 - value as i64) as u128;
        if change > limit {
            i32::MAX
        } else {
            (value as i64 + change as i64) as i32
        }
    } else {
        let limit: u128 = (value as i64 - i32::MIN as i64) as u128;
        if change > limit {
            i32::MIN
        } else {
            (value as i64 - change as i64) as i32
        }
    }
}

/// Scales `value` by `factor` thousandths, rounding toward zero.
pub fn damp(value: i32, factor: u32) -> (scaled: i32)
    ensures
        scaled == damped(value as int, factor as int),
{
    let magnitude: u64 = if value >= 0 {
        value as u64
    } else {
        (-(value as i64)) as u64
    };
    assert(magnitude * (factor as u64) <= 0x8000_0000 * 0xffff_ffff) by (nonlinear_arith)
        requires
            magnitude <= 0x8000_0000,
            factor <= 0xffff_ffff,
    ;
    assert(value < 0 ==> -(value * factor) == magnitude * factor && value * factor <= 0)
        by (nonlinear_arith)
        requires
            value < 0 ==> magnitude == -value,
            factor >= 0,
    ;
    let quotient: u64 = (magnitude * (factor as u64)) / 1000;
    if value >= 0 {
        if quotient > i32::MAX as u64 {
            i32::MAX
        } else {
            quotient as i32
        }
    } else {
        if quotient > 0x8000_0000 {
            i32::MIN
        } else {
            (-(quotient as i64)) as i32
        }
    }
}

impl Vec3 {
    /// The vector with the given components.
    pub fn new(x: i32, y: i32, z: i32) -> (v: Vec3)
        ensures
            v == (Vec3 { x, y, z }),
    {
        Vec3 { x, y, z }
    }

    /// The origin.
    pub fn zero() -> (v: Vec3)
        ensures
            v == (Vec3 { x: 0, y: 0, z: 0 }),
    {
        Vec3 { x: 0, y: 0, z: 0 }
    }

    /// The sum of two vectors, each component held to the range of `i32`.
    pub open spec fn plus(self, other: Vec3) -> Vec3 {
        Vec3 {
            x: clamp_i32(self.x + other.x) as i32,
            y: clamp_i32(self.y + other.y) as i32,
            z: clamp_i32(self.z + other.z) as i32,
        }
    }

    /// This vector after `dt` microseconds of change at `rate` per second.
    pub open spec fn advanced(self, rate: Vec3, dt: u64) -> Vec3 {
        Vec3 {
            x: clamp_i32(self.x + gain(rate.x as int, dt as int)) as i32,
            y: clamp_i32(self.y + gain(rate.y as int, dt as int)) as i32,
            z: clamp_i32(self.z + gain(rate.z as int, dt as int)) as i32,
        }
    }

    /// This vector with each component scaled by `factor` thousandths.
    pub open spec fn damped(self, factor: u32) -> Vec3 {
        Vec3 {
            x: damped(self.x as int, factor as int) as i32,
            y: damped(self.y as int, factor as int) as i32,
            z: damped(self.z as int, factor as int) as i32,
        }
    }

    /// The square of the distance between two points.
    pub open spec fn distance_squared(self, other: Vec3) -> int {
        (self.x - other.x) * (self.x - other.x) + (self.y - other.y) * (self.y - other.y) + (self.z
            - other.z) * (self.z - other.z)
    }

    /// Adds two vectors, each component held to the range of `i32`.
    pub fn saturating_add(self, other: Vec3) -> (sum: Vec3)
        ensures
            sum == self.plus(other),
    {
        Vec3 {
            x: clamped(self.x as i64 + other.x as i64),
            y: clamped(self.y as i64 + other.y as i64),
            z: clamped(self.z as i64 + other.z as i64),
        }
    }

    /// Moves each component by `dt` microseconds of change at `rate`.
    pub fn advance(self, rate: Vec3, dt: u64) -> (moved: Vec3)
        ensures
            moved == self.advanced(rate, dt),
    {
        Vec3 {
            x: advance(self.x, rate.x, dt),
            y: advance(self.y, rate.y, dt),
            z: advance(self.z, rate.z, dt),
        }
    }

    /// Scales each component by `factor` thousandths.
    pub fn damp(self, factor: u32) -> (scaled: Vec3)
        ensures
            scaled == self.damped(factor),
    {
        Vec3 { x: damp(self.x, factor), y: damp(self.y, factor), z: damp(self.z, factor) }
    }

    /// The square of the distance between two points.
    pub fn distance_squared_to(self, other: Vec3) -> (squared: u128)
        ensures
            squared == self.distance_squared(other),
            squared <= 3 * (0xffff_ffff * 0xffff_ffff),
    {
        let dx: u64 = gap(self.x, other.x);
        let dy: u64 = gap(self.y, other.y);
        let dz: u64 = gap(self.z, other.z);
        assert(dx * dx <= 0xffff_ffff * 0xffff_ffff) by (nonlinear_arith)
            requires
                dx <= 0xffff_ffff,
        ;
        assert(dy * dy <= 0xffff_ffff * 0xffff_ffff) by (nonlinear_arith)
            requires
                dy <= 0xffff_ffff,
        ;
        assert(dz * dz <= 0xffff_ffff * 0xffff_ffff) by (nonlinear_arith)
            requires
                dz <= 0xffff_ffff,
        ;
        assert(dx * dx == (self.x - other.x) * (self.x - other.x)) by (nonlinear_arith)
            requires
                dx == self.x - other.x || dx == other.x - self.x,
        ;
        assert(dy * dy == (self.y - other.y) * (self.y - other.y)) by (nonlinear_arith)
            requires
                dy == self.y - other.y || dy == other.y - self.y,
        ;
        assert(dz * dz == (self.z - other.z) * (self.z - other.z)) by (nonlinear_arith)
            requires
                dz == self.z - other.z || dz == other.z - self.z,
        ;
        (dx as u128) * (dx as u128) + (dy as u128) * (dy as u128) + (dz as u128) * (dz as u128)
    }

    /// Whether two points are closer to each other than `reach`.
    pub fn closer_than(self, other: Vec3, reach: u64) -> (near: bool)
        ensures
            near == (self.distance_squared(other) < reach * reach),
    {
        let squared = self.distance_squared_to(other);
        if reach > 0x1_ffff_fffe {
            // No two points lie further apart than this.
            assert(reach * reach >= 0x1_ffff_ffff * 0x1_ffff_ffff) by (nonlinear_arith)
                requires
                    reach >= 0x1_ffff_ffff,
            ;
            return true;
        }
        assert(reach * reach <= 0x1_ffff_fffe * 0x1_ffff_fffe) by (nonlinear_arith)
            requires
                reach <= 0x1_ffff_fffe,
        ;
        squared < (reach as u128) * (reach as u128)
    }
}

impl Rotation {
    /// The rotation that turns nothing.
    pub open spec fn spec_identity() -> Rotation {
        Rotation {
            x_axis: Vec3 { x: ROTATION_UNIT, y: 0, z: 0 },
            y_axis: Vec3 { x: 0, y: ROTATION_UNIT, z: 0 },
            z_axis: Vec3 { x: 0, y: 0, z: ROTATION_UNIT },
        }
    }

    /// A quarter turn about the vertical axis, which takes the `z` axis to
    /// the `x` axis.
    pub open spec fn spec_quarter_turn_y() -> Rotation {
        Rotation {
            x_axis: Vec3 { x: 0, y: 0, z: (-ROTATION_UNIT) as i32 },
            y_axis: Vec3 { x: 0, y: ROTATION_UNIT, z: 0 },
            z_axis: Vec3 { x: ROTATION_UNIT, y: 0, z: 0 },
        }
    }

    /// A quarter turn about the vertical axis the other way, which takes the
    /// `x` axis to the `z` axis.
    pub open spec fn spec_quarter_turn_back_y() -> Rotation {
        Rotation {
            x_axis: Vec3 { x: 0, y: 0, z: ROTATION_UNIT },
            y_axis: Vec3 { x: 0, y: ROTATION_UNIT, z: 0 },
            z_axis: Vec3 { x: (-ROTATION_UNIT) as i32, y: 0, z: 0 },
        }
    }

    /// A half turn about the vertical axis.
    pub open spec fn spec_half_turn_y() -> Rotation {
        Rotation {
            x_axis: Vec3 { x: (-ROTATION_UNIT) as i32, y: 0, z: 0 },
            y_axis: Vec3 { x: 0, y: ROTATION_UNIT, z: 0 },
            z_axis: Vec3 { x: 0, y: 0, z: (-ROTATION_UNIT) as i32 },
        }
    }

    /// `v` turned by this rotation: the sum of the axes' images, each weighed
    /// by the matching component of `v`.
    pub open spec fn turned(self, v: Vec3) -> Vec3 {
        Vec3 {
            x: blended(
                v.x as int,
                self.x_axis.x as int,
                v.y as int,
                self.y_axis.x as int,
                v.z as int,
                self.z_axis.x as int,
            ) as i32,
            y: blended(
                v.x as int,
                self.x_axis.y as int,
                v.y as int,
                self.y_axis.y as int,
                v.z as int,
                self.z_axis.y as int,
            ) as i32,
            z: blended(
                v.x as int,
                self.x_axis.z as int,
                v.y as int,
                self.y_axis.z as int,
                v.z as int,
                self.z_axis.z as int,
            ) as i32,
        }
    }

    /// The rotation that turns by `inner` first and by this one after.
    pub open spec fn composed(self, inner: Rotation) -> Rotation {
        Rotation {
            x_axis: self.turned(inner.x_axis),
            y_axis: self.turned(inner.y_axis),
            z_axis: self.turned(inner.z_axis),
        }
    }

    /// The rotation that turns nothing.
    pub fn identity() -> (r: Rotation)
        ensures
            r == Rotation::spec_identity(),
    {
        Rotation {
            x_axis: Vec3 { x: ROTATION_UNIT, y: 0, z: 0 },
            y_axis: Vec3 { x: 0, y: ROTATION_UNIT, z: 0 },
            z_axis: Vec3 { x: 0, y: 0, z: ROTATION_UNIT },
        }
    }

    /// A quarter turn about the vertical axis, which takes the `z` axis to
    /// the `x` axis.
    pub fn quarter_turn_y() -> (r: Rotation)
        ensures
            r == Rotation::spec_quarter_turn_y(),
    {
        Rotation {
            x_axis: Vec3 { x: 0, y: 0, z: -ROTATION_UNIT },
            y_axis: Vec3 { x: 0, y: ROTATION_UNIT, z: 0 },
            z_axis: Vec3 { x: ROTATION_UNIT, y: 0, z: 0 },
        }
    }

    /// A quarter turn about the vertical axis the other way.
    pub fn quarter_turn_back_y() -> (r: Rotation)
        ensures
            r == Rotation::spec_quarter_turn_back_y(),
    {
        Rotation {
            x_axis: Vec3 { x: 0, y: 0, z: ROTATION_UNIT },
            y_axis: Vec3 { x: 0, y: ROTATION_UNIT, z: 0 },
            z_axis: Vec3 { x: -ROTATION_UNIT, y: 0, z: 0 },
        }
    }

    /// A half turn about the vertical axis.
    pub fn half_turn_y() -> (r: Rotation)
        ensures
            r == Rotation::spec_half_turn_y(),
    {
        Rotation {
            x_axis: Vec3 { x: -ROTATION_UNIT, y: 0, z: 0 },
            y_axis: Vec3 { x: 0, y: ROTATION_UNIT, z: 0 },
            z_axis: Vec3 { x: 0, y: 0, z: -ROTATION_UNIT },
        }
    }

    /// Turns `v` by this rotation.
    pub fn turn(&self, v: Vec3) -> (turned: Vec3)
        ensures
            turned == self.turned(v),
    {
        Vec3 {
            x: blend(v.x, self.x_axis.x, v.y, self.y_axis.x, v.z, self.z_axis.x),
            y: blend(v.x, self.x_axis.y, v.y, self.y_axis.y, v.z, self.z_axis.y),
            z: blend(v.x, self.x_axis.z, v.y, self.y_axis.z, v.z, self.z_axis.z),
        }
    }

    /// The rotation that turns by `inner` first and by this one after.
    pub fn compose(&self, inner: &Rotation) -> (both: Rotation)
        ensures
            both == self.composed(*inner),
    {
        Rotation {
            x_axis: self.turn(inner.x_axis),
            y_axis: self.turn(inner.y_axis),
            z_axis: self.turn(inner.z_axis),
        }
    }
}

/// The identity turns no vector.
pub proof fn lemma_identity_turns_nothing(v: Vec3)
    ensures
        Rotation::spec_identity().turned(v) == v,
{
    assert(v.x * 1_000_000 / 1_000_000 == v.x) by (nonlinear_arith);
    assert(v.y * 1_000_000 / 1_000_000 == v.y) by (nonlinear_arith);
    assert(v.z * 1_000_000 / 1_000_000 == v.z) by (nonlinear_arith);
    assert((-(v.x * 1_000_000)) / 1_000_000 == -v.x) by (nonlinear_arith);
    assert((-(v.y * 1_000_000)) / 1_000_000 == -v.y) by (nonlinear_arith);
    assert((-(v.z * 1_000_000)) / 1_000_000 == -v.z) by (nonlinear_arith);
}

/// The product of two `i32` values.
fn product(a: i32, p: i32) -> (ap: i128)
    ensures
        ap == a * p,
        -0x4000_0000_0000_0000 <= ap <= 0x4000_0000_0000_0000,
{
    assert(-0x4000_0000_0000_0000 <= a * p <= 0x4000_0000_0000_0000) by (nonlinear_arith)
        requires
            -0x8000_0000 <= a <= 0x8000_0000,
            -0x8000_0000 <= p <= 0x8000_0000,
    ;
    (a as i128) * (p as i128)
}

/// One component of a turned vector.
fn blend(a: i32, p: i32, b: i32, q: i32, c: i32, r: i32) -> (sum: i32)
    ensures
        sum == blended(a as int, p as int, b as int, q as int, c as int, r as int),
{
    let total: i128 = product(a, p) + product(b, q) + product(c, r);
    if total >= 0 {
        let quotient: u128 = (total as u128) / (ROTATION_UNIT as u128);
        if quotient > i32::MAX as u128 {
            i32::MAX
        } else {
            quotient as i32
        }
    } else {
        let quotient: u128 = ((-total) as u128) / (ROTATION_UNIT as u128);
        if quotient > 0x8000_0000 {
            i32::MIN
        } else {
            (-(quotient as i64)) as i32
        }
    }
}

/// `v` held to the range of `i32`.
fn clamped(v: i64) -> (c: i32)
    ensures
        c == clamp_i32(v as int),
{
    if v < i32::MIN as i64 {
        i32::MIN
    } else if v > i32::MAX as i64 {
        i32::MAX
    } else {
        v as i32
    }
}

/// The absolute difference of two coordinates.
fn gap(a: i32, b: i32) -> (d: u64)
    ensures
        d == a - b || d == b - a,
        d >= 0,
        d <= 0xffff_ffff,
{
    if a >= b {
        (a as i64 - b as i64) as u64
    } else {
        (b as i64 - a as i64) as u64
    }
}

} // verus!
