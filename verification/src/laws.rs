//! General properties of the relaxation model, stated and proved once.
//!
//! Each law is a public proof function over the spec model in [`crate::model`]
//! and [`crate::sphere`], to which the `ensures` of the executable functions
//! pin their results.

use vstd::prelude::*;

use crate::model::advance_of;
use crate::model::accum;
use crate::model::relax_of;
use crate::model::step_of;
use crate::model::theta_at;
use crate::sampler::FixedSampler;
use crate::sampler::RandomSampler;
use crate::sampler::Sampler;
use crate::sampler::rng_of_seed;
use crate::sphere::samples_of;
use crate::vecops::mul_of;

verus! {

/// Zero relaxation iterations leave a point set exactly as it was.
pub proof fn lemma_zero_iterations_identity(
    ps: Seq<glam::Vec3>,
    theta: glam::Vec3,
    decay: glam::Vec3,
    eps: glam::Vec3,
)
    ensures
        relax_of(ps, 0, theta, decay, eps) == ps,
{
}

/// Relaxation never adds or removes points: after any number of iterations
/// the point count is what it was.
pub proof fn lemma_relaxation_preserves_count(
    ps: Seq<glam::Vec3>,
    k: nat,
    theta: glam::Vec3,
    decay: glam::Vec3,
    eps: glam::Vec3,
)
    ensures
        relax_of(ps, k, theta, decay, eps).len() == ps.len(),
    decreases k,
{
    if k > 0 {
        lemma_relaxation_preserves_count(
            advance_of(ps, theta, eps),
            (k - 1) as nat,
            mul_of(theta, decay),
            decay,
            eps,
        );
    }
}

/// Shifting the starting angle of the decay schedule by one decay factor is
/// the same as looking one iteration further into the schedule.
proof fn lemma_theta_at_shift(theta: glam::Vec3, decay: glam::Vec3, i: nat)
    ensures
        theta_at(mul_of(theta, decay), decay, i) == theta_at(theta, decay, i + 1),
    decreases i,
{
    if i == 0 {
        assert(theta_at(theta, decay, 1) == mul_of(theta_at(theta, decay, 0), decay));
    } else {
        lemma_theta_at_shift(theta, decay, (i - 1) as nat);
        assert(theta_at(mul_of(theta, decay), decay, i) == mul_of(
            theta_at(mul_of(theta, decay), decay, (i - 1) as nat),
            decay,
        ));
        assert(theta_at(theta, decay, i + 1) == mul_of(theta_at(theta, decay, i), decay));
    }
}

/// The step angles applied over a relaxation follow the geometric decay
/// schedule: the iteration after the first `k` rotates by the initial angle
/// scaled down `k` times by the decay ratio.
pub proof fn lemma_threshold_schedule(
    ps: Seq<glam::Vec3>,
    k: nat,
    theta: glam::Vec3,
    decay: glam::Vec3,
    eps: glam::Vec3,
)
    ensures
        relax_of(ps, k + 1, theta, decay, eps) == advance_of(
            relax_of(ps, k, theta, decay, eps),
            theta_at(theta, decay, k),
            eps,
        ),
    decreases k,
{
    if k == 0 {
        assert(relax_of(ps, 1, theta, decay, eps) == relax_of(
            advance_of(ps, theta, eps),
            0,
            mul_of(theta, decay),
            decay,
            eps,
        ));
    } else {
        lemma_threshold_schedule(
            advance_of(ps, theta, eps),
            (k - 1) as nat,
            mul_of(theta, decay),
            decay,
            eps,
        );
        lemma_theta_at_shift(theta, decay, (k - 1) as nat);
        assert(relax_of(ps, k + 1, theta, decay, eps) == relax_of(
            advance_of(ps, theta, eps),
            k,
            mul_of(theta, decay),
            decay,
            eps,
        ));
        assert(relax_of(ps, k, theta, decay, eps) == relax_of(
            advance_of(ps, theta, eps),
            (k - 1) as nat,
            mul_of(theta, decay),
            decay,
            eps,
        ));
    }
}

/// One relaxation step moves nothing in a set of fewer than two points: with
/// no other point there is no repulsion, and the explicit fallback keeps the
/// point where it was.
pub proof fn lemma_degenerate_advance(ps: Seq<glam::Vec3>, theta: glam::Vec3, eps: glam::Vec3)
    requires
        ps.len() <= 1,
    ensures
        advance_of(ps, theta, eps) == ps,
{
    if ps.len() == 1 {
        assert(accum(ps, 0, 1, eps) == accum(ps, 0, 0, eps));
        assert(step_of(ps, 0, theta, eps) == ps[0]);
    }
    assert(advance_of(ps, theta, eps) =~= ps);
}

/// No number of relaxation iterations moves anything in a set of fewer than
/// two points.
pub proof fn lemma_degenerate_relaxation(
    ps: Seq<glam::Vec3>,
    k: nat,
    theta: glam::Vec3,
    decay: glam::Vec3,
    eps: glam::Vec3,
)
    requires
        ps.len() <= 1,
    ensures
        relax_of(ps, k, theta, decay, eps) == ps,
    decreases k,
{
    if k > 0 {
        lemma_degenerate_advance(ps, theta, eps);
        lemma_degenerate_relaxation(ps, (k - 1) as nat, mul_of(theta, decay), decay, eps);
    }
}

/// A fixed sampler at its start replays its stored points: drawing no more
/// points than it holds yields exactly its first stored points, in order.
pub proof fn lemma_fixed_sampler_replays(s: FixedSampler, k: nat)
    requires
        s.wf(),
        s.next == 0,
        k <= s.points@.len(),
    ensures
        samples_of(s, k).0 =~= s.points@.subrange(0, k as int),
        samples_of(s, k).1.points == s.points,
        samples_of(s, k).1.next == if k == s.points@.len() {
            0int
        } else {
            k as int
        },
    decreases k,
{
    if k > 0 {
        lemma_fixed_sampler_replays(s, (k - 1) as nat);
        let prev = samples_of(s, (k - 1) as nat);
        assert(samples_of(s, k) == (prev.0.push(prev.1.next_spec().0), prev.1.next_spec().1));
        assert(prev.1.points.len() <= usize::MAX);
        assert(prev.1.next_spec().1.next == if prev.1.next + 1 == prev.1.points@.len() {
            0int
        } else {
            prev.1.next + 1
        });
    }
}

/// Two constructions driven by samplers seeded with the same seed and the
/// same parameters yield the same point set: sampling and relaxation are
/// both functions of the seed and the parameters alone.
pub proof fn lemma_same_seed_same_construction(
    a: RandomSampler,
    b: RandomSampler,
    seed: u64,
    n: u32,
    k: nat,
    theta: glam::Vec3,
    decay: glam::Vec3,
    eps: glam::Vec3,
)
    requires
        a.rng == rng_of_seed(seed),
        b.rng == rng_of_seed(seed),
    ensures
        samples_of(a, n as nat) == samples_of(b, n as nat),
        relax_of(samples_of(a, n as nat).0, k, theta, decay, eps) == relax_of(
            samples_of(b, n as nat).0,
            k,
            theta,
            decay,
            eps,
        ),
{
    assert(a == b);
}

} // verus!
