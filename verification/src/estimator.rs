use vstd::prelude::*;
use vstd::arithmetic::div_mod::{lemma_div_by_multiple, lemma_div_is_ordered};
use crate::vector::{spec_sqrt_floor, Vector3};

verus! {

/// Fixed-point scale for sine and cosine values: a trigonometric value t in
/// [-1, 1] is carried as the integer round(t * TRIG_SCALE).
pub const TRIG_SCALE: i32 = 32768;

/// |a * b| <= abound * bbound when |a| <= abound and |b| <= bbound.
proof fn lemma_mul_in_range(a: int, b: int, abound: int, bbound: int)
    by (nonlinear_arith)
    requires
        -abound <= a <= abound,
        -bbound <= b <= bbound,
        0 <= abound,
        0 <= bbound,
    ensures
        -(abound * bbound) <= a * b <= abound * bbound,
{
}

/// a * a is never negative.
proof fn lemma_square_nonneg(a: int)
    by (nonlinear_arith)
    ensures
        a * a >= 0,
{
}

/// A component whose square is at most n cannot exceed the integer square
/// root of n.
proof fn lemma_component_within_norm(c: int, n: int, norm: int)
    by (nonlinear_arith)
    requires
        c * c <= n,
        n < (norm + 1) * (norm + 1),
        norm >= 0,
    ensures
        -norm <= c <= norm,
{
}

/// One accelerometer component divided by the vector norm, at scale
/// TRIG_SCALE: the rounding-toward-zero quotient of magnitudes, with the
/// sign of the component put back.
pub open spec fn spec_scaled_component(c: int, norm: int) -> int {
    if c >= 0 {
        (c * TRIG_SCALE) / norm
    } else {
        -((-c * TRIG_SCALE) / norm)
    }
}

/// Divide one component by the norm at scale TRIG_SCALE.
fn scaled_component(c: i32, norm: u64) -> (s: i64)
    requires
        1 <= norm,
        -(norm as int) <= c <= norm as int,
    ensures
        s == spec_scaled_component(c as int, norm as int),
        -TRIG_SCALE <= s <= TRIG_SCALE,
{
    let magnitude: u64 = if c >= 0 {
        c as u64
    } else {
        (-(c as i64)) as u64
    };
    let scaled = magnitude * (TRIG_SCALE as u64);
    let quotient = scaled / norm;
    proof {
        lemma_div_is_ordered(
            magnitude as int * 32768,
            norm as int * 32768,
            norm as int,
        );
        lemma_div_by_multiple(32768int, norm as int);
    }
    if c >= 0 {
        quotient as i64
    } else {
        -(quotient as i64)
    }
}

/// Normalize an accelerometer sample into the gravity direction, each
/// component at scale TRIG_SCALE (so the pitch angle is the arcsine of the
/// first component over the scale, and the roll angle is the angle of the
/// last two). A degenerate, all-zero sample leaves the gravity direction
/// undefined and is excluded; callers must guarantee a non-degenerate
/// reading.
pub fn scaled_gravity_direction(accel: Vector3) -> (g: (i64, i64, i64))
    requires
        accel.spec_norm_squared() > 0,
    ensures
        ({
            let norm = spec_sqrt_floor(accel.spec_norm_squared() as nat) as int;
            &&& g.0 == spec_scaled_component(accel.x as int, norm)
            &&& g.1 == spec_scaled_component(accel.y as int, norm)
            &&& g.2 == spec_scaled_component(accel.z as int, norm)
        }),
        -TRIG_SCALE <= g.0 <= TRIG_SCALE,
        -TRIG_SCALE <= g.1 <= TRIG_SCALE,
        -TRIG_SCALE <= g.2 <= TRIG_SCALE,
{
    let norm = accel.norm();
    proof {
        let n = accel.spec_norm_squared();
        assert(norm >= 1) by (nonlinear_arith)
            requires
                n < (norm as int + 1) * (norm as int + 1),
                n > 0,
                norm >= 0,
        ;
        lemma_square_nonneg(accel.x as int);
        lemma_square_nonneg(accel.y as int);
        lemma_square_nonneg(accel.z as int);
        lemma_component_within_norm(accel.x as int, n, norm as int);
        lemma_component_within_norm(accel.y as int, n, norm as int);
        lemma_component_within_norm(accel.z as int, n, norm as int);
    }
    (
        scaled_component(accel.x, norm),
        scaled_component(accel.y, norm),
        scaled_component(accel.z, norm),
    )
}

/// Tilt compensation: project the magnetic field onto the horizontal plane
/// given the sine and cosine of the pitch and roll angles, each carried at
/// scale TRIG_SCALE. The result is the horizontal field pair (x, y) at scale
/// TRIG_SCALE * TRIG_SCALE; the heading is the angle of that pair, which
/// depends only on their ratio, so the common scale drops out.
pub fn tilt_compensated_field(
    mag: Vector3,
    sin_pitch: i32,
    cos_pitch: i32,
    sin_roll: i32,
    cos_roll: i32,
) -> (r: (i64, i64))
    requires
        -TRIG_SCALE <= sin_pitch <= TRIG_SCALE,
        -TRIG_SCALE <= cos_pitch <= TRIG_SCALE,
        -TRIG_SCALE <= sin_roll <= TRIG_SCALE,
        -TRIG_SCALE <= cos_roll <= TRIG_SCALE,
    ensures
        r.0 == mag.x * cos_roll * TRIG_SCALE + mag.y * sin_roll * sin_pitch
            - mag.z * cos_pitch * TRIG_SCALE,
        r.1 == mag.y * cos_pitch * TRIG_SCALE + mag.z * sin_pitch * TRIG_SCALE,
{
    let mx = mag.x as i64;
    let my = mag.y as i64;
    let mz = mag.z as i64;
    let sp = sin_pitch as i64;
    let cp = cos_pitch as i64;
    let sr = sin_roll as i64;
    let cr = cos_roll as i64;
    let scale = TRIG_SCALE as i64;
    proof {
        lemma_mul_in_range(mx as int, cr as int, 0x8000_0000int, 0x8000int);
        lemma_mul_in_range(my as int, sr as int, 0x8000_0000int, 0x8000int);
        lemma_mul_in_range(my * sr, sp as int, 0x4000_0000_0000int, 0x8000int);
        lemma_mul_in_range(mz as int, cp as int, 0x8000_0000int, 0x8000int);
        lemma_mul_in_range(my as int, cp as int, 0x8000_0000int, 0x8000int);
        lemma_mul_in_range(mz as int, sp as int, 0x8000_0000int, 0x8000int);
    }
    let horiz_x = mx * cr * scale + my * sr * sp - mz * cp * scale;
    let horiz_y = my * cp * scale + mz * sp * scale;
    (horiz_x, horiz_y)
}

} // verus!
