use vstd::prelude::*;

use crate::scalar::{Scalar, ScalarArith};
use crate::vector::Vector3;

verus! {

/// How many Newton–Raphson iterations are spent on Kepler's equation.
/// The count is fixed — there is no convergence cut-off.
pub const NEWTON_RAPHSON_ITERATIONS: usize = 30;

/// Cartesian state vectors converted from classical Keplerian orbital
/// elements, evaluated with the host's arithmetic.
///
/// Based on the standard closed-form transform: propagate the mean
/// anomaly from the epoch, solve Kepler's equation `M = E - e*sin(E)` for
/// the eccentric anomaly by [`NEWTON_RAPHSON_ITERATIONS`] Newton–Raphson
/// iterations, form the position and velocity in the orbital plane, and
/// rotate both into the inertial frame through the argument of periapsis,
/// the inclination and the longitude of the ascending node.
///
/// * `a` — semi-major axis, meters
/// * `e` — eccentricity of the orbit
/// * `w` — argument of periapsis, radians
/// * `omega` — longitude of the ascending node, radians
/// * `i` — inclination of the orbit, radians
/// * `t0` — epoch of the mean anomaly, as a Julian date
/// * `t` — considered epoch, as a Julian date
/// * `m0` — mean anomaly at epoch `t0`, radians
/// * `mu` — standard gravitational parameter of the central body
///
/// Returns the position (meters) and velocity (meters per second)
/// vectors. Every arithmetic step goes through `arith`, so nothing is
/// stated — or can be stated — about the numeric outcome here; the
/// expected magnitudes for real ephemeris inputs are exercised by the
/// test suite against the hardware arithmetic.
pub fn keplerian_to_cartesian<A: ScalarArith>(
    arith: &A,
    a: Scalar,
    e: Scalar,
    w: Scalar,
    omega: Scalar,
    i: Scalar,
    t0: Scalar,
    t: Scalar,
    m0: Scalar,
    mu: Scalar,
) -> (Vector3, Vector3) {
    let one = arith.from_u32(1);
    let two = arith.from_u32(2);
    let zero = arith.from_u32(0);

    // Propagate the mean anomaly to the considered epoch, converting the
    // Julian-date difference from days to seconds.
    let mt = if arith.eq(t, t0) {
        m0
    } else {
        let dt = arith.mul(arith.from_u32(86400), arith.sub(t, t0));
        let a3 = arith.mul(arith.mul(a, a), a);
        arith.add(m0, arith.mul(dt, arith.sqrt(arith.div(mu, a3))))
    };

    // Solve Kepler's equation M(t) = E(t) - e * sin(E) for the eccentric
    // anomaly `big_e` by the Newton–Raphson method, with a fixed
    // iteration count.
    let mut big_e = mt;
    let mut big_f = arith.sub(arith.sub(big_e, arith.mul(e, arith.sin(big_e))), mt);
    let mut j: usize = 0;
    while j < NEWTON_RAPHSON_ITERATIONS
        decreases NEWTON_RAPHSON_ITERATIONS - j,
    {
        big_e = arith.sub(
            big_e,
            arith.div(big_f, arith.sub(one, arith.mul(e, arith.cos(big_e)))),
        );
        big_f = arith.sub(arith.sub(big_e, arith.mul(e, arith.sin(big_e))), mt);
        j += 1;
    }

    // The true anomaly `nu`.
    let half_e = arith.div(big_e, two);
    let nu = arith.mul(
        two,
        arith.atan2(
            arith.mul(arith.sqrt(arith.add(one, e)), arith.sin(half_e)),
            arith.mul(arith.sqrt(arith.sub(one, e)), arith.cos(half_e)),
        ),
    );

    // The distance to the central body.
    let rc = arith.mul(a, arith.sub(one, arith.mul(e, arith.cos(big_e))));

    // The position vector `o` in the orbital frame: the z-axis is
    // perpendicular to the orbital plane, the x-axis points to the
    // periapsis.
    let o = Vector3 {
        x: arith.mul(rc, arith.cos(nu)),
        y: arith.mul(rc, arith.sin(nu)),
        z: arith.mul(rc, zero),
    };

    // The velocity vector `o_dot` in the same frame.
    let o_dot_factor = arith.div(arith.sqrt(arith.mul(mu, a)), rc);
    let o_dot = Vector3 {
        x: arith.mul(o_dot_factor, arith.neg(arith.sin(big_e))),
        y: arith.mul(
            o_dot_factor,
            arith.mul(arith.sqrt(arith.sub(one, arith.mul(e, e))), arith.cos(big_e)),
        ),
        z: arith.mul(o_dot_factor, zero),
    };

    // Rotate `o` and `o_dot` into the inertial frame in bodycentric
    // rectangular coordinates.
    let cos_w = arith.cos(w);
    let sin_w = arith.sin(w);
    let cos_omega = arith.cos(omega);
    let sin_omega = arith.sin(omega);
    let cos_i = arith.cos(i);
    let sin_i = arith.sin(i);

    let m_xx = arith.sub(arith.mul(cos_w, cos_omega), arith.mul(arith.mul(sin_w, cos_i), sin_omega));
    let m_xy = arith.add(arith.mul(sin_w, cos_omega), arith.mul(arith.mul(cos_w, cos_i), sin_omega));
    let m_yx = arith.add(arith.mul(cos_w, sin_omega), arith.mul(arith.mul(sin_w, cos_i), cos_omega));
    let m_yy = arith.sub(arith.mul(arith.mul(cos_w, cos_i), cos_omega), arith.mul(sin_w, sin_omega));
    let m_zx = arith.mul(sin_w, sin_i);
    let m_zy = arith.mul(cos_w, sin_i);

    let r = Vector3 {
        x: arith.sub(arith.mul(o.x, m_xx), arith.mul(o.y, m_xy)),
        y: arith.add(arith.mul(o.x, m_yx), arith.mul(o.y, m_yy)),
        z: arith.add(arith.mul(o.x, m_zx), arith.mul(o.y, m_zy)),
    };

    let r_dot = Vector3 {
        x: arith.sub(arith.mul(o_dot.x, m_xx), arith.mul(o_dot.y, m_xy)),
        y: arith.add(arith.mul(o_dot.x, m_yx), arith.mul(o_dot.y, m_yy)),
        z: arith.add(arith.mul(o_dot.x, m_zx), arith.mul(o_dot.y, m_zy)),
    };

    (r, r_dot)
}

} // verus!
