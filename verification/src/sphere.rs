//! Point sets on the unit sphere and their relaxation into blue noise.

use vstd::prelude::*;

use crate::model::advance_of;
use crate::model::all_unit;
use crate::model::accum;
use crate::model::default_decay;
use crate::model::default_iterations;
use crate::model::default_theta;
use crate::model::force_epsilon;
use crate::model::pow_of;
use crate::model::relax_of;
use crate::model::step_of;
use crate::sampler::Sampler;
use crate::vecops::Scalar;
use crate::vecops::rot_apply;
use crate::vecops::rot_mat;
use crate::vecops::vec_add;
use crate::vecops::vec_angle;
use crate::vecops::vec_cross;
use crate::vecops::vec_div;
use crate::vecops::vec_eq;
use crate::vecops::vec_mul;
use crate::vecops::vec_neg;
use crate::vecops::vec_sub;
use crate::vecops::vec_try_normalize;
use crate::vecops::vec_uniform;

verus! {

/// The points a sampler in the given state yields when drawn from `k` times:
/// the sequence of points, with the sampler state left behind.
pub open spec fn samples_of<S: Sampler>(s: S, k: nat) -> (Seq<glam::Vec3>, S)
    decreases k,
{
    if k == 0 {
        (Seq::<glam::Vec3>::empty(), s)
    } else {
        let prev = samples_of(s, (k - 1) as nat);
        (prev.0.push(prev.1.next_spec().0), prev.1.next_spec().1)
    }
}

/// Points on the unit sphere that relax into a blue-noise spread.
///
/// The set is created by drawing from a [`Sampler`] and refined by
/// [`advance`](BlueNoiseSphere::advance) steps; every point stays on the unit
/// sphere at every stage, and the number of points never changes.
#[derive(Clone)]
pub struct BlueNoiseSphere {
    particles: Vec<glam::Vec3>,
}

impl View for BlueNoiseSphere {
    type V = Seq<glam::Vec3>;

    closed spec fn view(&self) -> Seq<glam::Vec3> {
        self.particles@
    }
}

impl BlueNoiseSphere {
    /// Every point of the set lies on the unit sphere.
    pub open spec fn wf(&self) -> bool {
        all_unit(self@)
    }

    /// The points of the set, in insertion order.
    pub fn points(&self) -> (r: &Vec<glam::Vec3>)
        ensures
            r@ == self@,
    {
        &self.particles
    }

    /// The points of the set, in insertion order, consuming the set.
    pub fn into_points(self) -> (r: Vec<glam::Vec3>)
        ensures
            r@ == self@,
    {
        self.particles
    }

    /// Draws `num_of_points` points from the sampler, without any relaxation
    /// applied; `advance` or `advance_multiple` should then be called.
    /// Zero points is valid and yields an empty set.
    pub fn new_raw<S: Sampler>(num_of_points: u32, sampler: &mut S) -> (r: BlueNoiseSphere)
        requires
            old(sampler).wf(),
        ensures
            final(sampler).wf(),
            r.wf(),
            r@.len() == num_of_points,
            (r@, *final(sampler)) == samples_of(*old(sampler), num_of_points as nat),
    {
        let mut particles: Vec<glam::Vec3> = Vec::new();
        let mut i: u32 = 0;
        while i < num_of_points
            invariant
                i <= num_of_points,
                sampler.wf(),
                particles@.len() == i,
                all_unit(particles@),
                (particles@, *sampler) == samples_of(*old(sampler), i as nat),
            decreases num_of_points - i,
        {
            let p = sampler.sample_point();
            particles.push(p);
            i += 1;
        }
        BlueNoiseSphere { particles }
    }

    /// One relaxation step: rotates every point by the angle `threshold`
    /// (in radians) along the direction in which the other points repel it,
    /// reading the prior positions only.  A point whose repulsion has no
    /// direction — no other point contributes, or the contributions cancel
    /// exactly, as for two antipodal points — stays where it is.
    pub fn advance(&self, threshold: Scalar) -> (r: BlueNoiseSphere)
        requires
            self.wf(),
        ensures
            r.wf(),
            r@.len() == self@.len(),
            r@ == advance_of(self@, threshold.v, force_epsilon()),
    {
        let eps = Scalar::ratio(1, 100_000_000);
        let n = self.particles.len();
        let mut out: Vec<glam::Vec3> = Vec::new();
        let mut i: usize = 0;
        while i < n
            invariant
                n == self@.len(),
                self.wf(),
                i <= n,
                out@.len() == i,
                all_unit(out@),
                eps.v == force_epsilon(),
                forall|k: int| 0 <= k < i ==> out@[k] == step_of(self@, k, threshold.v, eps.v),
            decreases n - i,
        {
            let p = self.particles[i];
            let mut acc: Option<glam::Vec3> = None;
            let mut j: usize = 0;
            while j < n
                invariant
                    n == self@.len(),
                    self.wf(),
                    i < n,
                    j <= n,
                    p == self@[i as int],
                    eps.v == force_epsilon(),
                    acc == accum(self@, i as int, j as int, eps.v),
                decreases n - j,
            {
                if j != i {
                    let q = self.particles[j];
                    if !vec_eq(p, q) {
                        match vec_try_normalize(vec_cross(p, q)) {
                            Some(dir) => {
                                let ang = vec_angle(p, q);
                                let term = vec_div(dir, vec_add(vec_mul(ang, ang), eps.v));
                                acc = Some(
                                    match acc {
                                        None => vec_neg(term),
                                        Some(a) => vec_sub(a, term),
                                    },
                                );
                            },
                            None => {},
                        }
                    }
                }
                j += 1;
            }
            let moved = match acc {
                None => p,
                Some(a) => match vec_try_normalize(a) {
                    None => p,
                    Some(axis) => {
                        let m = rot_mat(axis, threshold.v);
                        match vec_try_normalize(rot_apply(&m, p)) {
                            None => p,
                            Some(u) => u,
                        }
                    },
                },
            };
            assert(moved == step_of(self@, i as int, threshold.v, eps.v));
            out.push(moved);
            i += 1;
        }
        assert(out@ =~= advance_of(self@, threshold.v, force_epsilon()));
        BlueNoiseSphere { particles: out }
    }

    /// Applies `advance` `num_of_iterations` times, shrinking the step angle
    /// by the factor `angular_displacement_threshold_decay` after every
    /// iteration.  Zero iterations returns the set unchanged.
    pub fn advance_multiple(
        self,
        num_of_iterations: u16,
        maximum_angular_displacement_threshold: Scalar,
        angular_displacement_threshold_decay: Scalar,
    ) -> (r: BlueNoiseSphere)
        requires
            self.wf(),
        ensures
            r.wf(),
            r@.len() == self@.len(),
            r@ == relax_of(
                self@,
                num_of_iterations as nat,
                maximum_angular_displacement_threshold.v,
                angular_displacement_threshold_decay.v,
                force_epsilon(),
            ),
    {
        let ghost orig: Seq<glam::Vec3> = self@;
        let mut cur = self;
        let mut theta = maximum_angular_displacement_threshold;
        let mut k: u16 = 0;
        while k < num_of_iterations
            invariant
                k <= num_of_iterations,
                cur.wf(),
                cur@.len() == orig.len(),
                relax_of(
                    orig,
                    num_of_iterations as nat,
                    maximum_angular_displacement_threshold.v,
                    angular_displacement_threshold_decay.v,
                    force_epsilon(),
                ) == relax_of(
                    cur@,
                    (num_of_iterations - k) as nat,
                    theta.v,
                    angular_displacement_threshold_decay.v,
                    force_epsilon(),
                ),
            decreases num_of_iterations - k,
        {
            cur = cur.advance(theta);
            theta = theta.times(angular_displacement_threshold_decay);
            k += 1;
        }
        cur
    }

    /// Creates a blue-noise point set from `num_of_points` sampled points,
    /// with explicit tuning: the iteration count, the initial step angle in
    /// radians, and the decay ratio of that angle per iteration.
    pub fn new_with_params<S: Sampler>(
        sampler: &mut S,
        num_of_points: u32,
        num_of_iterations: u16,
        maximum_angular_displacement_threshold: Scalar,
        angular_displacement_threshold_decay: Scalar,
    ) -> (r: BlueNoiseSphere)
        requires
            old(sampler).wf(),
        ensures
            final(sampler).wf(),
            r.wf(),
            r@.len() == num_of_points,
            *final(sampler) == samples_of(*old(sampler), num_of_points as nat).1,
            r@ == relax_of(
                samples_of(*old(sampler), num_of_points as nat).0,
                num_of_iterations as nat,
                maximum_angular_displacement_threshold.v,
                angular_displacement_threshold_decay.v,
                force_epsilon(),
            ),
    {
        Self::new_raw(num_of_points, sampler).advance_multiple(
            num_of_iterations,
            maximum_angular_displacement_threshold,
            angular_displacement_threshold_decay,
        )
    }

    /// Creates a blue-noise point set from `num_of_points` sampled points,
    /// with the default tuning: 16 iterations, an initial step angle of
    /// `0.99938357 ^ num_of_points / 4 + 0.01` radians, and a decay ratio of
    /// `0.8`.
    pub fn new<S: Sampler>(num_of_points: u32, sampler: &mut S) -> (r: BlueNoiseSphere)
        requires
            old(sampler).wf(),
        ensures
            final(sampler).wf(),
            r.wf(),
            r@.len() == num_of_points,
            *final(sampler) == samples_of(*old(sampler), num_of_points as nat).1,
            r@ == relax_of(
                samples_of(*old(sampler), num_of_points as nat).0,
                default_iterations() as nat,
                default_theta(num_of_points),
                default_decay(),
                force_epsilon(),
            ),
    {
        let base = Scalar::ratio(99_938_357, 100_000_000);
        let pw = pow_scalar(base, num_of_points);
        let theta = Scalar { v: vec_add(vec_div(pw.v, vec_uniform(4)), Scalar::ratio(1, 100).v) };
        Self::new_with_params(sampler, num_of_points, 16, theta, Scalar::ratio(4, 5))
    }
}

/// The `n`-th power of a scalar, by repeated multiplication, with the zeroth
/// power exactly 1.
fn pow_scalar(base: Scalar, n: u32) -> (r: Scalar)
    ensures
        r.v == pow_of(base.v, n as nat),
{
    let mut r = Scalar { v: vec_uniform(1) };
    let mut i: u32 = 0;
    while i < n
        invariant
            i <= n,
            r.v == pow_of(base.v, i as nat),
        decreases n - i,
    {
        r = r.times(base);
        i += 1;
    }
    r
}

} // verus!
