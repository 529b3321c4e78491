//! The Ristretto255 group operations this library relies on, from curve25519-dalek.
//!
//! The points and scalars are carried as opaque values. What an operation returns
//! is named by a spec function of its operands, and the library's contracts are
//! stated over those names.
use curve25519_dalek::constants::RISTRETTO_BASEPOINT_TABLE;
use curve25519_dalek::ristretto::{CompressedRistretto, RistrettoPoint};
use curve25519_dalek::scalar::Scalar;
use curve25519_dalek::traits::{Identity, VartimeMultiscalarMul};
use sha2::Sha512;
use vstd::prelude::*;

verus! {

#[verifier::external_type_specification]
#[verifier::external_body]
pub struct ExRistrettoPoint(RistrettoPoint);

#[verifier::external_type_specification]
#[verifier::external_body]
pub struct ExScalar(Scalar);

/// The group sum `a + b`.
pub uninterp spec fn point_sum(a: RistrettoPoint, b: RistrettoPoint) -> RistrettoPoint;

/// The group difference `a - b`.
pub uninterp spec fn point_difference(a: RistrettoPoint, b: RistrettoPoint) -> RistrettoPoint;

/// The group inverse `-p`.
pub uninterp spec fn point_negation(p: RistrettoPoint) -> RistrettoPoint;

/// The scalar multiple `s * p`.
pub uninterp spec fn point_scaled(p: RistrettoPoint, s: Scalar) -> RistrettoPoint;

/// Whether two points are the same group element.
pub uninterp spec fn points_equal(a: RistrettoPoint, b: RistrettoPoint) -> bool;

/// The 32-byte canonical encoding of a point.
pub uninterp spec fn compression_of(p: RistrettoPoint) -> Seq<u8>;

/// The point that 32 bytes encode, if they encode one canonically.
pub uninterp spec fn decompression_of(bytes: Seq<u8>) -> Option<RistrettoPoint>;

/// The multiple `s * B` of the standard basepoint `B`.
pub uninterp spec fn basepoint_scaled(s: Scalar) -> RistrettoPoint;

/// `a * p + b * B`, with `B` the standard basepoint.
pub uninterp spec fn double_scaled(a: Scalar, p: RistrettoPoint, b: Scalar) -> RistrettoPoint;

/// The multiscalar product `s[0] * p[0] + ... + s[n-1] * p[n-1]`.
pub uninterp spec fn multiscalar_product(s: Seq<Scalar>, p: Seq<RistrettoPoint>) -> RistrettoPoint;

/// The point derived from the SHA-512 digest of `bytes`.
pub uninterp spec fn sha512_point(bytes: Seq<u8>) -> RistrettoPoint;

/// The point derived from 64 uniformly random bytes.
pub uninterp spec fn uniform_bytes_point(bytes: Seq<u8>) -> RistrettoPoint;

/// Relies on `RistrettoPoint::identity` (trait `Identity`): the neutral element of
/// the group, which added to any point on either side gives a point equal to it.
#[verifier::external_body]
pub(crate) fn identity_point() -> (r: RistrettoPoint)
    ensures
        forall|q: RistrettoPoint| #[trigger] points_equal(point_sum(r, q), q),
        forall|q: RistrettoPoint| #[trigger] points_equal(point_sum(q, r), q),
{
    RistrettoPoint::identity()
}

/// Relies on `Add` for `&RistrettoPoint`: the group sum.
#[verifier::external_body]
pub(crate) fn add_points(a: &RistrettoPoint, b: &RistrettoPoint) -> (r: RistrettoPoint)
    ensures
        r == point_sum(*a, *b),
{
    a + b
}

/// Relies on `Sub` for `&RistrettoPoint`: the group difference.
#[verifier::external_body]
pub(crate) fn sub_points(a: &RistrettoPoint, b: &RistrettoPoint) -> (r: RistrettoPoint)
    ensures
        r == point_difference(*a, *b),
{
    a - b
}

/// Relies on `Neg` for `&RistrettoPoint`: the group inverse.
#[verifier::external_body]
pub(crate) fn neg_point(p: &RistrettoPoint) -> (r: RistrettoPoint)
    ensures
        r == point_negation(*p),
{
    -p
}

/// Relies on `Mul<&Scalar>` for `&RistrettoPoint`: scalar multiplication.
#[verifier::external_body]
pub(crate) fn mul_point(p: &RistrettoPoint, s: &Scalar) -> (r: RistrettoPoint)
    ensures
        r == point_scaled(*p, *s),
{
    p * s
}

/// Relies on `PartialEq::eq` for `RistrettoPoint`: equality of group elements.
#[verifier::external_body]
pub(crate) fn eq_points(a: &RistrettoPoint, b: &RistrettoPoint) -> (r: bool)
    ensures
        r == points_equal(*a, *b),
{
    a == b
}

/// Relies on `RistrettoPoint::compress` and `CompressedRistretto::to_bytes`: the
/// canonical 32-byte encoding.
#[verifier::external_body]
pub(crate) fn compress_point(p: &RistrettoPoint) -> (r: [u8; 32])
    ensures
        r@ == compression_of(*p),
{
    p.compress().to_bytes()
}

/// Relies on `CompressedRistretto::decompress`: the point that the bytes encode, or
/// `None` where they are not a canonical encoding.
#[verifier::external_body]
pub(crate) fn decompress_bytes(bytes: [u8; 32]) -> (r: Option<RistrettoPoint>)
    ensures
        r == decompression_of(bytes@),
{
    CompressedRistretto(bytes).decompress()
}

/// Relies on `&RistrettoBasepointTable * &Scalar` over `RISTRETTO_BASEPOINT_TABLE`:
/// a multiple of the basepoint.
#[verifier::external_body]
pub(crate) fn mul_basepoint(s: &Scalar) -> (r: RistrettoPoint)
    ensures
        r == basepoint_scaled(*s),
{
    &RISTRETTO_BASEPOINT_TABLE * s
}

/// Relies on `RistrettoPoint::vartime_double_scalar_mul_basepoint`: `a * p + b * B`.
#[verifier::external_body]
pub(crate) fn double_mul_basepoint(a: &Scalar, p: &RistrettoPoint, b: &Scalar) -> (r: RistrettoPoint)
    ensures
        r == double_scaled(*a, *p, *b),
{
    RistrettoPoint::vartime_double_scalar_mul_basepoint(a, p, b)
}

/// Relies on `VartimeMultiscalarMul::vartime_multiscalar_mul` for `RistrettoPoint`,
/// which asserts that the two sequences have one length.
#[verifier::external_body]
pub(crate) fn multiscalar_mul(scalars: &Vec<Scalar>, points: &Vec<RistrettoPoint>) -> (r: RistrettoPoint)
    requires
        scalars@.len() == points@.len(),
    ensures
        r == multiscalar_product(scalars@, points@),
{
    RistrettoPoint::vartime_multiscalar_mul(scalars.iter(), points.iter())
}

/// Relies on `RistrettoPoint::hash_from_bytes::<Sha512>`: hashing bytes to a point.
#[verifier::external_body]
pub(crate) fn hash_to_point(bytes: &Vec<u8>) -> (r: RistrettoPoint)
    ensures
        r == sha512_point(bytes@),
{
    RistrettoPoint::hash_from_bytes::<Sha512>(bytes.as_slice())
}

/// Relies on `RistrettoPoint::from_uniform_bytes`: a point from 64 uniform bytes.
#[verifier::external_body]
pub(crate) fn point_from_uniform_bytes(bytes: &[u8; 64]) -> (r: RistrettoPoint)
    ensures
        r == uniform_bytes_point(bytes@),
{
    RistrettoPoint::from_uniform_bytes(bytes)
}

} // verus!
