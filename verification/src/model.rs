//! The mathematical model of the relaxation algorithm.
//!
//! Every executable step of the library is pinned, in its `ensures`, to one of
//! the spec functions below.  The functions compose the named results of the
//! trusted vector operations, so a point set produced by the library is a
//! function of the initial points and the tuning parameters alone.

use vstd::prelude::*;

use crate::vecops::add_of;
use crate::vecops::angle_of;
use crate::vecops::cross_of;
use crate::vecops::div_of;
use crate::vecops::eq_of;
use crate::vecops::is_unit;
use crate::vecops::mul_of;
use crate::vecops::neg_of;
use crate::vecops::ratio_of;
use crate::vecops::rot_apply_of;
use crate::vecops::rot_mat_of;
use crate::vecops::sub_of;
use crate::vecops::unit_dir_of;
use crate::vecops::uniform_of;

verus! {

/// Every point of the sequence lies on the unit sphere.
pub open spec fn all_unit(s: Seq<glam::Vec3>) -> bool {
    forall|i: int| 0 <= i < s.len() ==> is_unit(s[i])
}

/// The small positive constant added to the squared angular distance, so that
/// two nearly coincident points repel with a large but finite force.
pub open spec fn force_epsilon() -> glam::Vec3 {
    ratio_of(1, 100_000_000)
}

/// The repulsive contribution of point `q` on point `p`: the direction of
/// their cross product, scaled down by the squared angular distance (plus
/// `eps`).  `None` when the cross product has no direction, that is when the
/// two points are parallel or antiparallel; such a pair contributes nothing.
pub open spec fn pair_term(p: glam::Vec3, q: glam::Vec3, eps: glam::Vec3) -> Option<glam::Vec3> {
    match unit_dir_of(cross_of(p, q)) {
        None => None,
        Some(dir) => Some(
            div_of(dir, add_of(mul_of(angle_of(p, q), angle_of(p, q)), eps)),
        ),
    }
}

/// The angular acceleration accumulated on point `i` from the points with
/// index below `j`: the negated sum of their pair terms, or `None` when no
/// point contributed.  The point itself, points lane-wise equal to it, and
/// pairs without a cross direction are all skipped.
pub open spec fn accum(
    ps: Seq<glam::Vec3>,
    i: int,
    j: int,
    eps: glam::Vec3,
) -> Option<glam::Vec3>
    decreases j,
{
    if j <= 0 {
        None
    } else {
        let rest = accum(ps, i, j - 1, eps);
        if j - 1 == i || eq_of(ps[i], ps[j - 1]) {
            rest
        } else {
            match pair_term(ps[i], ps[j - 1], eps) {
                None => rest,
                Some(t) => Some(
                    match rest {
                        None => neg_of(t),
                        Some(a) => sub_of(a, t),
                    },
                ),
            }
        }
    }
}

/// Where one relaxation step moves point `i`: rotated about the direction of
/// its accumulated acceleration by the angle `theta`, then defensively scaled
/// back to unit length.  When the acceleration has no direction — no point
/// contributed, or the contributions cancelled — the point stays where it is.
pub open spec fn step_of(
    ps: Seq<glam::Vec3>,
    i: int,
    theta: glam::Vec3,
    eps: glam::Vec3,
) -> glam::Vec3 {
    match accum(ps, i, ps.len() as int, eps) {
        None => ps[i],
        Some(a) => match unit_dir_of(a) {
            None => ps[i],
            Some(axis) => match unit_dir_of(rot_apply_of(rot_mat_of(axis, theta), ps[i])) {
                None => ps[i],
                Some(moved) => moved,
            },
        },
    }
}

/// One relaxation step: every point moved by [`step_of`], all reading the
/// same prior snapshot.
pub open spec fn advance_of(ps: Seq<glam::Vec3>, theta: glam::Vec3, eps: glam::Vec3) -> Seq<
    glam::Vec3,
> {
    Seq::new(ps.len(), |i: int| step_of(ps, i, theta, eps))
}

/// `k` relaxation steps, the step angle shrinking by the factor `decay` after
/// each one.
pub open spec fn relax_of(
    ps: Seq<glam::Vec3>,
    k: nat,
    theta: glam::Vec3,
    decay: glam::Vec3,
    eps: glam::Vec3,
) -> Seq<glam::Vec3>
    decreases k,
{
    if k == 0 {
        ps
    } else {
        relax_of(advance_of(ps, theta, eps), (k - 1) as nat, mul_of(theta, decay), decay, eps)
    }
}

/// The step angle applied at iteration `i` (counted from 0): the initial
/// angle `theta` scaled down `i` times by `decay`.
pub open spec fn theta_at(theta: glam::Vec3, decay: glam::Vec3, i: nat) -> glam::Vec3
    decreases i,
{
    if i == 0 {
        theta
    } else {
        mul_of(theta_at(theta, decay, (i - 1) as nat), decay)
    }
}

/// The `n`-th power of a scalar carried in `base`'s lanes, with the zeroth
/// power the uniform vector of 1.
pub open spec fn pow_of(base: glam::Vec3, n: nat) -> glam::Vec3
    decreases n,
{
    if n == 0 {
        uniform_of(1)
    } else {
        mul_of(pow_of(base, (n - 1) as nat), base)
    }
}

/// The default initial step angle for `n` points:
/// `0.99938357 ^ n / 4 + 0.01` radians, a heuristic that starts more
/// crowded spheres off with a smaller step to avoid overshooting.
pub open spec fn default_theta(n: u32) -> glam::Vec3 {
    add_of(
        div_of(pow_of(ratio_of(99_938_357, 100_000_000), n as nat), uniform_of(4)),
        ratio_of(1, 100),
    )
}

/// The default decay ratio of the step angle, `0.8` per iteration.
pub open spec fn default_decay() -> glam::Vec3 {
    ratio_of(4, 5)
}

/// The default number of relaxation iterations.
pub open spec fn default_iterations() -> u16 {
    16
}

} // verus!
