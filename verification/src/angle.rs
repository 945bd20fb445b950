//! Fixed-point angle arithmetic.
//!
//! Angles are carried as signed 64-bit counts of nanoradians, so one full
//! turn is `TAU_NANORAD` units and the wrap operations below are exact
//! integer statements of the floor-modulo normalization the look-angle
//! pipeline depends on.

use vstd::prelude::*;

verus! {

/// Half a turn (pi radians) in nanoradian units.
pub const PI_NANORAD: i64 = 3_141_592_653;

/// A full turn (two pi radians) in nanoradian units.
pub const TAU_NANORAD: i64 = 2 * PI_NANORAD;

/// Floor modulo: the remainder of `x` by `y` taken with the sign of the
/// divisor, so a positive `y` always yields a result in `[0, y)`.
pub fn floor_mod(x: i64, y: i64) -> (r: i64)
    requires
        y > 0,
    ensures
        r == x as int % y as int,
        0 <= r < y,
{
    let t: i64 = x % y;
    proof {
        let xi = x as int;
        let yi = y as int;
        if x < 0 {
            vstd::arithmetic::div_mod::lemma_fundamental_div_mod(-xi, yi);
            vstd::arithmetic::div_mod::lemma_mod_bound(-xi, yi);
            let q = (-xi) / yi;
            let m = (-xi) % yi;
            if m == 0 {
                assert(xi == (-q) * yi + 0) by (nonlinear_arith)
                    requires
                        -xi == yi * q + m,
                        m == 0,
                ;
                vstd::arithmetic::div_mod::lemma_fundamental_div_mod_converse_mod(xi, yi, -q, 0);
            } else {
                assert(xi == (-q - 1) * yi + (yi - m)) by (nonlinear_arith)
                    requires
                        -xi == yi * q + m,
                ;
                vstd::arithmetic::div_mod::lemma_fundamental_div_mod_converse_mod(
                    xi,
                    yi,
                    -q - 1,
                    yi - m,
                );
            }
        }
    }
    if t < 0 {
        t + y
    } else {
        t
    }
}

/// Normalize an angle to `[0, TAU_NANORAD)`, congruent to the input
/// modulo one full turn.
pub fn wrap_two_pi(x: i64) -> (r: i64)
    ensures
        r == x as int % TAU_NANORAD as int,
        0 <= r < TAU_NANORAD,
        (r - x) % (TAU_NANORAD as int) == 0,
{
    floor_mod(x, TAU_NANORAD)
}

/// Shift-wrap-shift normalization of an angle to `[-PI_NANORAD,
/// PI_NANORAD)`, congruent to the input modulo one full turn.
pub fn neg_pos_pi(x: i64) -> (r: i64)
    requires
        x <= i64::MAX - PI_NANORAD,
    ensures
        r == (x + PI_NANORAD) % (TAU_NANORAD as int) - PI_NANORAD,
        -PI_NANORAD <= r < PI_NANORAD,
        (r - x) % (TAU_NANORAD as int) == 0,
{
    floor_mod(x + PI_NANORAD, TAU_NANORAD) - PI_NANORAD
}

/// Local sidereal time: the global sidereal angle shifted by the
/// observer's longitude and wrapped to `[0, TAU_NANORAD)`.
pub fn to_local_sidereal_time(longitude: i64, sidereal_time: i64) -> (r: i64)
    requires
        i64::MIN <= sidereal_time + longitude <= i64::MAX,
    ensures
        r == (sidereal_time + longitude) % (TAU_NANORAD as int),
        0 <= r < TAU_NANORAD,
        (r - (sidereal_time + longitude)) % (TAU_NANORAD as int) == 0,
{
    wrap_two_pi(sidereal_time + longitude)
}

/// Floor division: the quotient of `n` by `d` rounded toward negative
/// infinity, matching the mathematical floor the wrap operations use.
fn floor_div_i128(n: i128, d: i128) -> (q: i128)
    requires
        d > 0,
        n > i128::MIN,
    ensures
        q == n as int / d as int,
{
    let t: i128 = n / d;
    let m: i128 = n % d;
    proof {
        let ni = n as int;
        let di = d as int;
        if n < 0 {
            vstd::arithmetic::div_mod::lemma_fundamental_div_mod(-ni, di);
            vstd::arithmetic::div_mod::lemma_mod_bound(-ni, di);
            vstd::arithmetic::div_mod::lemma_div_nonincreasing(-ni, di);
            let qe = (-ni) / di;
            let me = (-ni) % di;
            assert(t == -qe);
            assert(t >= ni);
            if me == 0 {
                assert(ni == (-qe) * di + 0) by (nonlinear_arith)
                    requires
                        -ni == di * qe + me,
                        me == 0,
                ;
                vstd::arithmetic::div_mod::lemma_fundamental_div_mod_converse_div(ni, di, -qe, 0);
            } else {
                assert(ni == (-qe - 1) * di + (di - me)) by (nonlinear_arith)
                    requires
                        -ni == di * qe + me,
                ;
                vstd::arithmetic::div_mod::lemma_fundamental_div_mod_converse_div(
                    ni,
                    di,
                    -qe - 1,
                    di - me,
                );
            }
        }
    }
    if m != 0 && n < 0 {
        t - 1
    } else {
        t
    }
}

/// Micro-degrees per full turn, the counterpart of `TAU_NANORAD`.
pub const TURN_MICRODEG: i64 = 360_000_000;

/// Convert an angle in nanoradians to micro-degrees, rounding toward
/// negative infinity.
pub fn radians_to_degrees(radians: i64) -> (r: i64)
    ensures
        r == radians * TURN_MICRODEG / (TAU_NANORAD as int),
{
    proof {
        assert(i64::MIN * TURN_MICRODEG <= (radians as int) * TURN_MICRODEG <= i64::MAX
            * TURN_MICRODEG);
    }
    let n: i128 = (radians as i128) * (TURN_MICRODEG as i128);
    proof {
        assert(n as int == radians * TURN_MICRODEG);
    }
    let q: i128 = floor_div_i128(n, TAU_NANORAD as i128);
    proof {
        vstd::arithmetic::div_mod::lemma_div_is_ordered(
            n as int,
            i64::MAX * TURN_MICRODEG,
            TAU_NANORAD as int,
        );
        vstd::arithmetic::div_mod::lemma_div_is_ordered(
            i64::MIN * TURN_MICRODEG,
            n as int,
            TAU_NANORAD as int,
        );
    }
    q as i64
}

/// Convert an angle in micro-degrees to nanoradians, rounding toward
/// negative infinity.  The bound on the input keeps the result inside
/// the 64-bit angle representation.
pub fn degrees_to_radians(degrees: i64) -> (r: i64)
    requires
        -500_000_000_000_000_000 <= degrees <= 500_000_000_000_000_000,
    ensures
        r == degrees * TAU_NANORAD / (TURN_MICRODEG as int),
{
    proof {
        assert(-500_000_000_000_000_000 * TAU_NANORAD <= (degrees as int) * TAU_NANORAD
            <= 500_000_000_000_000_000 * TAU_NANORAD);
    }
    let n: i128 = (degrees as i128) * (TAU_NANORAD as i128);
    proof {
        assert(n as int == degrees * TAU_NANORAD);
    }
    let q: i128 = floor_div_i128(n, TURN_MICRODEG as i128);
    proof {
        vstd::arithmetic::div_mod::lemma_div_is_ordered(
            n as int,
            500_000_000_000_000_000 * TAU_NANORAD,
            TURN_MICRODEG as int,
        );
        vstd::arithmetic::div_mod::lemma_div_is_ordered(
            -500_000_000_000_000_000 * TAU_NANORAD,
            n as int,
            TURN_MICRODEG as int,
        );
    }
    q as i64
}

/// Converting an angle from micro-degrees to nanoradians and back is
/// stable: because a nanoradian is the finer unit, the round trip
/// returns the original angle exactly when the scaling divides evenly
/// and the next angle down otherwise, so at most one micro-degree is
/// lost.
pub proof fn lemma_degree_radian_round_trip(d: int)
    ensures
        d * TAU_NANORAD / (TURN_MICRODEG as int) * TURN_MICRODEG / (TAU_NANORAD as int) == if d
            * TAU_NANORAD % (TURN_MICRODEG as int) == 0 {
            d
        } else {
            d - 1
        },
{
    let t = TAU_NANORAD as int;
    let u = TURN_MICRODEG as int;
    vstd::arithmetic::div_mod::lemma_fundamental_div_mod(d * t, u);
    vstd::arithmetic::div_mod::lemma_mod_bound(d * t, u);
    let r = d * t / u;
    let m = d * t % u;
    assert(r * u == d * t - m) by (nonlinear_arith)
        requires
            d * t == u * r + m,
    ;
    if m == 0 {
        vstd::arithmetic::div_mod::lemma_fundamental_div_mod_converse_div(r * u, t, d, 0);
    } else {
        assert(r * u == (d - 1) * t + (t - m)) by (nonlinear_arith)
            requires
                r * u == d * t - m,
        ;
        vstd::arithmetic::div_mod::lemma_fundamental_div_mod_converse_div(r * u, t, d - 1, t - m);
    }
}

/// Quadrant correction for the topocentric azimuth: the arctangent of
/// `-east / south` lands in a half-turn, so a southward-positive range
/// vector shifts it by half a turn and a negative result wraps up by a
/// full turn, landing the azimuth in `[0, TAU_NANORAD)`.
pub fn correct_azimuth_quadrant(raw_azimuth: i64, south_positive: bool) -> (r: i64)
    requires
        -PI_NANORAD < raw_azimuth < PI_NANORAD,
    ensures
        0 <= r < TAU_NANORAD,
        south_positive ==> r == raw_azimuth + PI_NANORAD,
        !south_positive && raw_azimuth < 0 ==> r == raw_azimuth + TAU_NANORAD,
        !south_positive && raw_azimuth >= 0 ==> r == raw_azimuth,
{
    let mut az: i64 = raw_azimuth;
    if south_positive {
        az = az + PI_NANORAD;
    }
    if az < 0 {
        az = az + TAU_NANORAD;
    }
    az
}

} // verus!
