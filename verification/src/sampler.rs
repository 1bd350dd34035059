//! Sources of points on the unit sphere.
//!
//! Initial point sets are drawn from a [`Sampler`]: a stateful source whose
//! next point, together with its next state, is a function of its current
//! state alone.  [`RandomSampler`] draws uniformly distributed points through
//! `rand_distr`; [`FixedSampler`] replays a fixed list of points, for callers
//! that need a reproducible, hand-picked configuration.

use vstd::prelude::*;

use crate::vecops::is_unit;
use crate::vecops::unit_dir_of;
use crate::vecops::vec_try_normalize;

verus! {

/// A source of points on the unit sphere.
///
/// Sampling is deterministic in the sampler's state: the point drawn and the
/// state left behind are given by `next_spec`, a function of the prior state
/// alone, so that two equal samplers drive two constructions to equal results.
pub trait Sampler: Sized {
    /// The sampler is in a state it can sample from.
    spec fn wf(&self) -> bool;

    /// The point this sampler yields next, with the sampler's next state.
    spec fn next_spec(&self) -> (glam::Vec3, Self);

    /// Draws the next point on the unit sphere.
    fn sample_point(&mut self) -> (p: glam::Vec3)
        requires
            old(self).wf(),
        ensures
            final(self).wf(),
            is_unit(p),
            p == old(self).next_spec().0,
            *final(self) == old(self).next_spec().1,
    ;
}

/// What `rand_distr::UnitSphere` draws from a generator in the given state.
pub uninterp spec fn sphere_sample_of(rng: rand::rngs::StdRng) -> glam::Vec3;

/// The generator state left behind once `rand_distr::UnitSphere` has drawn
/// one point from a generator in the given state.
pub uninterp spec fn rng_after_of(rng: rand::rngs::StdRng) -> rand::rngs::StdRng;

/// The generator that `rand::SeedableRng::seed_from_u64` derives from a seed.
pub uninterp spec fn rng_of_seed(seed: u64) -> rand::rngs::StdRng;

#[verifier::external_type_specification]
#[verifier::external_body]
pub struct ExStdRng(rand::rngs::StdRng);

/// Relies on `rand_distr::UnitSphere::sample`: the point is uniformly
/// distributed on the surface of the unit sphere (so of unit norm), and both
/// the point and the generator state left behind depend on the prior
/// generator state alone (`rand`'s standard generator is documented as
/// reproducible).
#[verifier::external_body]
fn draw_unit_sphere(rng: &mut rand::rngs::StdRng) -> (p: glam::Vec3)
    ensures
        p == sphere_sample_of(*old(rng)),
        *final(rng) == rng_after_of(*old(rng)),
        is_unit(p),
{
    glam::Vec3::from(rand_distr::Distribution::sample(&rand_distr::UnitSphere, rng))
}

/// Points drawn uniformly from the unit sphere, using `rand`'s standard
/// generator.
pub struct RandomSampler {
    /// The generator state the next point will be drawn from.
    pub rng: rand::rngs::StdRng,
}

impl RandomSampler {
    /// A sampler seeded deterministically: the same seed yields the same
    /// sequence of points.
    ///
    /// Relies on `rand::SeedableRng::seed_from_u64`: the generator is a
    /// function of the seed alone.
    #[verifier::external_body]
    pub fn from_seed(seed: u64) -> (r: RandomSampler)
        ensures
            r.rng == rng_of_seed(seed),
            r.wf(),
    {
        RandomSampler { rng: rand::SeedableRng::seed_from_u64(seed) }
    }
}

impl Sampler for RandomSampler {
    open spec fn wf(&self) -> bool {
        true
    }

    open spec fn next_spec(&self) -> (glam::Vec3, Self) {
        (sphere_sample_of(self.rng), RandomSampler { rng: rng_after_of(self.rng) })
    }

    fn sample_point(&mut self) -> (p: glam::Vec3) {
        draw_unit_sphere(&mut self.rng)
    }
}

/// A sampler that replays a fixed, non-empty list of unit vectors in order,
/// wrapping around at the end.
pub struct FixedSampler {
    /// The unit vectors the sampler replays.
    pub points: Vec<glam::Vec3>,
    /// The index of the point yielded next.
    pub next: usize,
}

impl FixedSampler {
    /// A sampler that replays the given directions, each scaled to unit
    /// length, in order.  Returns `None` when some direction cannot be
    /// normalized (it is zero or non-finite) or when the list is empty.
    pub fn from_directions(dirs: Vec<glam::Vec3>) -> (r: Option<FixedSampler>)
        ensures
            r is Some <==> dirs@.len() > 0 && (forall|i: int|
                0 <= i < dirs@.len() ==> unit_dir_of(dirs@[i]) is Some),
            r matches Some(s) ==> {
                &&& s.wf()
                &&& s.points@.len() == dirs@.len()
                &&& s.next == 0
                &&& forall|i: int|
                    0 <= i < dirs@.len() ==> Some(s.points@[i]) == unit_dir_of(dirs@[i])
            },
    {
        if dirs.len() == 0 {
            return None;
        }
        let mut points: Vec<glam::Vec3> = Vec::new();
        let mut i: usize = 0;
        while i < dirs.len()
            invariant
                i <= dirs@.len(),
                points@.len() == i,
                forall|k: int| 0 <= k < i ==> Some(points@[k]) == unit_dir_of(dirs@[k]),
                forall|k: int| 0 <= k < i ==> is_unit(points@[k]),
            decreases dirs@.len() - i,
        {
            match vec_try_normalize(dirs[i]) {
                Some(u) => points.push(u),
                None => {
                    return None;
                },
            }
            i += 1;
        }
        Some(FixedSampler { points, next: 0 })
    }
}

impl Sampler for FixedSampler {
    open spec fn wf(&self) -> bool {
        &&& self.points@.len() > 0
        &&& self.next < self.points@.len()
        &&& forall|i: int| 0 <= i < self.points@.len() ==> is_unit(self.points@[i])
    }

    open spec fn next_spec(&self) -> (glam::Vec3, Self) {
        (
            self.points@[self.next as int],
            FixedSampler {
                points: self.points,
                next: if self.next + 1 == self.points@.len() {
                    0
                } else {
                    (self.next + 1) as usize
                },
            },
        )
    }

    fn sample_point(&mut self) -> (p: glam::Vec3) {
        let p = self.points[self.next];
        let len = self.points.len();
        self.next = if self.next == len - 1 {
            0
        } else {
            self.next + 1
        };
        p
    }
}

} // verus!
