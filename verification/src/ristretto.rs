//! The Ristretto group and its scalar field as curve25519-dalek computes
//! them, on plain bytes.
//!
//! A group element is handled as its 32-byte compressed encoding, a scalar as
//! the 32-byte little-endian encoding of its canonical representative. The
//! group operations are named here, not defined: each function below hands
//! its arguments to curve25519-dalek, and its contract is believed, not
//! proved. Nothing else in the crate is.

use crate::bytes::le_value;
use curve25519_dalek::ristretto::CompressedRistretto;
use curve25519_dalek::ristretto::RistrettoPoint;
use curve25519_dalek::traits::Identity;
use sha2::Sha512;
use vstd::prelude::*;

verus! {

/// The order of the Ristretto group, 2^252 + 27742317777372353535851937790883648493.
pub open spec fn group_order() -> nat {
    7237005577332262213973186563042994240857116359379907606001950938285454250989nat
}

/// The encoding of the neutral element of the group: 32 zero bytes.
pub open spec fn identity_encoding() -> Seq<u8> {
    Seq::new(32, |i: int| 0u8)
}

/// Whether `CompressedRistretto::decompress` accepts the bytes, that is,
/// whether they are the canonical encoding of a group element.
pub uninterp spec fn ristretto_decodes(encoding: Seq<u8>) -> bool;

/// The encoding of the group element that
/// `RistrettoPoint::hash_from_bytes::<Sha512>` maps the input to.
pub uninterp spec fn ristretto_hash(input: Seq<u8>) -> Seq<u8>;

/// The encoding of the sum of two encoded group elements.
pub uninterp spec fn ristretto_add(a: Seq<u8>, b: Seq<u8>) -> Seq<u8>;

/// The encoding of the difference of two encoded group elements.
pub uninterp spec fn ristretto_sub(a: Seq<u8>, b: Seq<u8>) -> Seq<u8>;

/// The encoding of an encoded group element multiplied by a scalar.
pub uninterp spec fn ristretto_mul(point: Seq<u8>, scalar: nat) -> Seq<u8>;

/// The scalar that `Scalar::hash_from_bytes::<Sha512>` maps the input to.
pub uninterp spec fn sha512_scalar(input: Seq<u8>) -> nat;

/// The generator behind `rand::rngs::StdRng`, carried through to the calls
/// that draw from it.
#[verifier::external_type_specification]
#[verifier::external_body]
pub struct ExStdRng(rand::rngs::StdRng);

/// `CompressedRistretto::decompress`, asked only whether it succeeds.
#[verifier::external_body]
pub(crate) fn point_decodes(encoding: &[u8; 32]) -> (b: bool)
    ensures
        b == ristretto_decodes(encoding@),
{
    CompressedRistretto(*encoding).decompress().is_some()
}

/// `RistrettoPoint::identity`, compressed: the neutral element is encoded as
/// 32 zero bytes, and these decode.
#[verifier::external_body]
pub(crate) fn point_identity() -> (r: [u8; 32])
    ensures
        r@ == identity_encoding(),
        ristretto_decodes(r@),
{
    RistrettoPoint::identity().compress().to_bytes()
}

/// `RistrettoPoint::hash_from_bytes` with SHA-512, compressed. The result
/// depends on the input alone and is the encoding of a group element.
#[verifier::external_body]
pub(crate) fn point_hash(input: &[u8]) -> (r: [u8; 32])
    ensures
        r@ == ristretto_hash(input@),
        ristretto_decodes(r@),
{
    RistrettoPoint::hash_from_bytes::<Sha512>(input).compress().to_bytes()
}

/// `+` on two `RistrettoPoint`s, from and to encodings.
#[verifier::external_body]
pub(crate) fn point_add(a: &[u8; 32], b: &[u8; 32]) -> (r: [u8; 32])
    requires
        ristretto_decodes(a@),
        ristretto_decodes(b@),
    ensures
        r@ == ristretto_add(a@, b@),
        ristretto_decodes(r@),
{
    let x = CompressedRistretto(*a).decompress().unwrap();
    let y = CompressedRistretto(*b).decompress().unwrap();
    (x + y).compress().to_bytes()
}

/// `-` on two `RistrettoPoint`s, from and to encodings.
#[verifier::external_body]
pub(crate) fn point_sub(a: &[u8; 32], b: &[u8; 32]) -> (r: [u8; 32])
    requires
        ristretto_decodes(a@),
        ristretto_decodes(b@),
    ensures
        r@ == ristretto_sub(a@, b@),
        ristretto_decodes(r@),
{
    let x = CompressedRistretto(*a).decompress().unwrap();
    let y = CompressedRistretto(*b).decompress().unwrap();
    (x - y).compress().to_bytes()
}

/// `*` on a `RistrettoPoint` and a `Scalar`, from and to encodings.
#[verifier::external_body]
pub(crate) fn point_mul(point: &[u8; 32], scalar: &[u8; 32]) -> (r: [u8; 32])
    requires
        ristretto_decodes(point@),
        le_value(scalar@) < group_order(),
    ensures
        r@ == ristretto_mul(point@, le_value(scalar@)),
        ristretto_decodes(r@),
{
    let p = CompressedRistretto(*point).decompress().unwrap();
    let s = curve25519_dalek::scalar::Scalar::from_bytes_mod_order(*scalar);
    (p * s).compress().to_bytes()
}

/// `Scalar::from_canonical_bytes`, asked only whether it succeeds: it does
/// exactly when the bytes stand for a number below the group order.
#[verifier::external_body]
pub(crate) fn scalar_is_canonical(bytes: &[u8; 32]) -> (b: bool)
    ensures
        b == (le_value(bytes@) < group_order()),
{
    curve25519_dalek::scalar::Scalar::from_canonical_bytes(*bytes).is_some().into()
}

/// `+` on two `Scalar`s: the sum modulo the group order.
#[verifier::external_body]
pub(crate) fn scalar_add(a: &[u8; 32], b: &[u8; 32]) -> (r: [u8; 32])
    requires
        le_value(a@) < group_order(),
        le_value(b@) < group_order(),
    ensures
        le_value(r@) == (le_value(a@) + le_value(b@)) % group_order(),
{
    let x = curve25519_dalek::scalar::Scalar::from_bytes_mod_order(*a);
    let y = curve25519_dalek::scalar::Scalar::from_bytes_mod_order(*b);
    (x + y).to_bytes()
}

/// `-` on two `Scalar`s: the difference modulo the group order.
#[verifier::external_body]
pub(crate) fn scalar_sub(a: &[u8; 32], b: &[u8; 32]) -> (r: [u8; 32])
    requires
        le_value(a@) < group_order(),
        le_value(b@) < group_order(),
    ensures
        le_value(r@) == (le_value(a@) - le_value(b@)) % (group_order() as int),
{
    let x = curve25519_dalek::scalar::Scalar::from_bytes_mod_order(*a);
    let y = curve25519_dalek::scalar::Scalar::from_bytes_mod_order(*b);
    (x - y).to_bytes()
}

/// `*` on two `Scalar`s: the product modulo the group order.
#[verifier::external_body]
pub(crate) fn scalar_mul(a: &[u8; 32], b: &[u8; 32]) -> (r: [u8; 32])
    requires
        le_value(a@) < group_order(),
        le_value(b@) < group_order(),
    ensures
        le_value(r@) == (le_value(a@) * le_value(b@)) % group_order(),
{
    let x = curve25519_dalek::scalar::Scalar::from_bytes_mod_order(*a);
    let y = curve25519_dalek::scalar::Scalar::from_bytes_mod_order(*b);
    (x * y).to_bytes()
}

/// `Scalar::random`: some scalar below the group order, which one is up to
/// the generator.
#[verifier::external_body]
pub(crate) fn scalar_random(rng: &mut rand::rngs::StdRng) -> (r: [u8; 32])
    ensures
        le_value(r@) < group_order(),
{
    curve25519_dalek::scalar::Scalar::random(rng).to_bytes()
}

/// `Scalar::hash_from_bytes` with SHA-512. The result depends on the input
/// alone and is below the group order.
#[verifier::external_body]
pub(crate) fn scalar_hash(input: &[u8]) -> (r: [u8; 32])
    ensures
        le_value(r@) == sha512_scalar(input@),
        le_value(r@) < group_order(),
{
    curve25519_dalek::scalar::Scalar::hash_from_bytes::<Sha512>(input).to_bytes()
}

} // verus!
