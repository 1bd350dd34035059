//! Vector arithmetic on `glam::Vec3`, behind trusted wrappers.
//!
//! The verified core never looks inside a vector: `glam::Vec3` is declared as
//! an opaque type, every operation on it is a small trusted wrapper around one
//! `glam` function, and the wrapper's contract names the result with an
//! uninterpreted spec function.  Contracts of the verified code then pin each
//! output down as a composition of those names, so that equal inputs are
//! proved to give equal outputs, while the numeric behaviour itself stays
//! `glam`'s.
//!
//! Scalar quantities (angles, decay ratios) are carried as uniform vectors:
//! a [`Scalar`] holds one real number in all three lanes of a `glam::Vec3`,
//! and lane-wise vector arithmetic doubles as scalar arithmetic.  Scalars are
//! written as exact integer ratios (see [`Scalar::ratio`]).

use vstd::prelude::*;

verus! {

#[verifier::external_type_specification]
#[verifier::external_body]
pub struct ExVec3(glam::Vec3);

#[verifier::external_type_specification]
#[verifier::external_body]
pub struct ExMat3(glam::Mat3);

/// Holds of a vector whose Euclidean norm is 1 up to floating-point rounding.
/// The trusted wrappers below state it exactly of the vectors that `glam`
/// and `rand_distr` document as normalized: the `Some` result of
/// `glam::Vec3::try_normalize`, and a `rand_distr::UnitSphere` sample.
pub uninterp spec fn is_unit(v: glam::Vec3) -> bool;

/// The cross product, as `glam::Vec3::cross` computes it.
pub uninterp spec fn cross_of(a: glam::Vec3, b: glam::Vec3) -> glam::Vec3;

/// What `glam::Vec3::try_normalize` returns: the input scaled to unit length,
/// or `None` for a zero or non-finite input.
pub uninterp spec fn unit_dir_of(v: glam::Vec3) -> Option<glam::Vec3>;

/// The angle between two vectors in radians, in every lane, as
/// `glam::Vec3::angle_between` computes it.
pub uninterp spec fn angle_of(a: glam::Vec3, b: glam::Vec3) -> glam::Vec3;

/// The lane-wise product, as `glam`'s `Mul<Vec3> for Vec3` computes it.
pub uninterp spec fn mul_of(a: glam::Vec3, b: glam::Vec3) -> glam::Vec3;

/// The lane-wise sum, as `glam`'s `Add<Vec3> for Vec3` computes it.
pub uninterp spec fn add_of(a: glam::Vec3, b: glam::Vec3) -> glam::Vec3;

/// The lane-wise quotient, as `glam`'s `Div<Vec3> for Vec3` computes it.
pub uninterp spec fn div_of(a: glam::Vec3, b: glam::Vec3) -> glam::Vec3;

/// The lane-wise difference, as `glam`'s `Sub<Vec3> for Vec3` computes it.
pub uninterp spec fn sub_of(a: glam::Vec3, b: glam::Vec3) -> glam::Vec3;

/// The lane-wise negation, as `glam`'s `Neg for Vec3` computes it.
pub uninterp spec fn neg_of(v: glam::Vec3) -> glam::Vec3;

/// The vector with the integer `n` in every lane, as `glam::UVec3::as_vec3`
/// casts it.
pub uninterp spec fn uniform_of(n: u32) -> glam::Vec3;

/// The rotation matrix about `axis` by the angle carried in `angle`'s lanes,
/// as `glam::Mat3::from_axis_angle` builds it.
pub uninterp spec fn rot_mat_of(axis: glam::Vec3, angle: glam::Vec3) -> glam::Mat3;

/// The matrix-vector product, as `glam::Mat3::mul_vec3` computes it.
pub uninterp spec fn rot_apply_of(m: glam::Mat3, v: glam::Vec3) -> glam::Vec3;

/// What `glam`'s derived `PartialEq` on `Vec3` returns: lane-wise equality.
pub uninterp spec fn eq_of(a: glam::Vec3, b: glam::Vec3) -> bool;

/// Relies on `glam::Vec3::cross`: the result depends on the operands alone.
#[verifier::external_body]
pub(crate) fn vec_cross(a: glam::Vec3, b: glam::Vec3) -> (r: glam::Vec3)
    ensures
        r == cross_of(a, b),
{
    a.cross(b)
}

/// Relies on `glam::Vec3::try_normalize`: the result depends on the operand
/// alone, a `Some` result is the input scaled to length 1, and the zero
/// vector (in particular a uniform vector of 0) gives `None`.
#[verifier::external_body]
pub(crate) fn vec_try_normalize(v: glam::Vec3) -> (r: Option<glam::Vec3>)
    ensures
        r == unit_dir_of(v),
        r is Some ==> is_unit(r->0),
        v == uniform_of(0) ==> r is None,
{
    v.try_normalize()
}

/// Relies on `glam::Vec3::angle_between` and `glam::Vec3::splat`: the angle
/// depends on the operands alone and is carried in all three lanes.
#[verifier::external_body]
pub(crate) fn vec_angle(a: glam::Vec3, b: glam::Vec3) -> (r: glam::Vec3)
    ensures
        r == angle_of(a, b),
{
    glam::Vec3::splat(a.angle_between(b))
}

/// Relies on `glam`'s `Mul<Vec3> for Vec3`: the lane-wise product depends on
/// the operands alone.
#[verifier::external_body]
pub(crate) fn vec_mul(a: glam::Vec3, b: glam::Vec3) -> (r: glam::Vec3)
    ensures
        r == mul_of(a, b),
{
    a * b
}

/// Relies on `glam`'s `Add<Vec3> for Vec3`: the lane-wise sum depends on the
/// operands alone.
#[verifier::external_body]
pub(crate) fn vec_add(a: glam::Vec3, b: glam::Vec3) -> (r: glam::Vec3)
    ensures
        r == add_of(a, b),
{
    a + b
}

/// Relies on `glam`'s `Div<Vec3> for Vec3`: the lane-wise quotient depends on
/// the operands alone.
#[verifier::external_body]
pub(crate) fn vec_div(a: glam::Vec3, b: glam::Vec3) -> (r: glam::Vec3)
    ensures
        r == div_of(a, b),
{
    a / b
}

/// Relies on `glam`'s `Sub<Vec3> for Vec3`: the lane-wise difference depends
/// on the operands alone.
#[verifier::external_body]
pub(crate) fn vec_sub(a: glam::Vec3, b: glam::Vec3) -> (r: glam::Vec3)
    ensures
        r == sub_of(a, b),
{
    a - b
}

/// Relies on `glam`'s `Neg for Vec3`: the lane-wise negation depends on the
/// operand alone.
#[verifier::external_body]
pub(crate) fn vec_neg(v: glam::Vec3) -> (r: glam::Vec3)
    ensures
        r == neg_of(v),
{
    -v
}

/// Relies on `glam::UVec3::as_vec3` (with `glam::UVec3::splat` converting the
/// argument): casting `n` to floating point in every lane depends on `n`
/// alone.
#[verifier::external_body]
pub(crate) fn vec_uniform(n: u32) -> (r: glam::Vec3)
    ensures
        r == uniform_of(n),
{
    glam::UVec3::splat(n).as_vec3()
}

/// Relies on `glam::Mat3::from_axis_angle` (with a lane read converting the
/// carried angle): the rotation matrix depends on axis and angle alone.
#[verifier::external_body]
pub(crate) fn rot_mat(axis: glam::Vec3, angle: glam::Vec3) -> (r: glam::Mat3)
    ensures
        r == rot_mat_of(axis, angle),
{
    glam::Mat3::from_axis_angle(axis, angle.x)
}

/// Relies on `glam::Mat3::mul_vec3`: the product depends on the operands
/// alone.
#[verifier::external_body]
pub(crate) fn rot_apply(m: &glam::Mat3, v: glam::Vec3) -> (r: glam::Vec3)
    ensures
        r == rot_apply_of(*m, v),
{
    m.mul_vec3(v)
}

/// Relies on `glam`'s derived `PartialEq` for `Vec3`: lane-wise equality
/// depends on the operands alone.
#[verifier::external_body]
pub(crate) fn vec_eq(a: glam::Vec3, b: glam::Vec3) -> (r: bool)
    ensures
        r == eq_of(a, b),
{
    a == b
}

/// The value of the exact ratio `num / den`, evaluated in floating point.
pub open spec fn ratio_of(num: u32, den: u32) -> glam::Vec3 {
    div_of(uniform_of(num), uniform_of(den))
}

/// A real scalar, carried uniformly in all three lanes of a vector so that
/// the verified core can treat it as an opaque value and lane-wise vector
/// arithmetic doubles as scalar arithmetic.
#[derive(Clone, Copy)]
pub struct Scalar {
    /// The carried value, the same in every lane.
    pub v: glam::Vec3,
}

impl Scalar {
    /// The scalar `num / den`, evaluated in floating point.  Numeric
    /// constants are given to the core as exact integer ratios.
    pub fn ratio(num: u32, den: u32) -> (r: Scalar)
        ensures
            r.v == ratio_of(num, den),
    {
        Scalar { v: vec_div(vec_uniform(num), vec_uniform(den)) }
    }

    /// The product of two scalars.
    pub fn times(self, other: Scalar) -> (r: Scalar)
        ensures
            r.v == mul_of(self.v, other.v),
    {
        Scalar { v: vec_mul(self.v, other.v) }
    }
}

} // verus!
