//! Blue-noise point sets on the unit sphere.
//!
//! Starting from independently sampled random points, the library treats each
//! point as a charged particle on the sphere's surface and repeatedly rotates
//! every point a little along the direction in which the other points repel
//! it, with a geometrically decaying step angle, until the configuration
//! settles into a visually even, blue-noise-like spread.

pub mod laws;
pub mod model;
mod sampler;
mod sphere;
pub mod vecops;

pub use sampler::FixedSampler;
pub use sampler::RandomSampler;
pub use sampler::Sampler;
pub use sphere::BlueNoiseSphere;
pub use sphere::samples_of;
pub use vecops::Scalar;
