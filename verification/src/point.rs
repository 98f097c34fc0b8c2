//! Elements of the Ristretto group, each kept as its 32-byte compressed
//! encoding. The encoding is canonical: two elements are equal exactly when
//! their encodings are.

use crate::bytes::bytes_equal;
use crate::ristretto::identity_encoding;
use crate::ristretto::point_add;
use crate::ristretto::point_decodes;
use crate::ristretto::point_hash;
use crate::ristretto::point_identity;
use crate::ristretto::point_mul;
use crate::ristretto::point_sub;
use crate::ristretto::ristretto_add;
use crate::ristretto::ristretto_decodes;
use crate::ristretto::ristretto_hash;
use crate::ristretto::ristretto_mul;
use crate::ristretto::ristretto_sub;
use crate::scalar::Scalar;
use vstd::prelude::*;

verus! {

/// An element of the Ristretto group. Its view is its encoding, which always
/// decodes.
#[derive(Copy, Clone, Debug, Eq)]
pub struct Point {
    bytes: [u8; 32],
}

impl View for Point {
    type V = Seq<u8>;

    closed spec fn view(&self) -> Seq<u8> {
        self.bytes@
    }
}

impl Point {
    /// The bytes are the encoding of a group element.
    #[verifier::type_invariant]
    pub open spec fn is_valid(&self) -> bool {
        ristretto_decodes(self@)
    }

    /// The neutral element of the group.
    pub fn identity() -> (r: Point)
        ensures
            r@ == identity_encoding(),
    {
        Point { bytes: point_identity() }
    }

    /// Reads a group element from 32 bytes: `None` exactly when they are not
    /// the encoding of one.
    pub fn from_bytes(bytes: [u8; 32]) -> (r: Option<Point>)
        ensures
            r is Some <==> ristretto_decodes(bytes@),
            r matches Some(p) ==> p@ == bytes@,
    {
        if point_decodes(&bytes) {
            Some(Point { bytes })
        } else {
            None
        }
    }

    /// The encoding of the group element.
    pub fn to_bytes(&self) -> (r: [u8; 32])
        ensures
            r@ == self@,
    {
        self.bytes
    }

    /// The group element that SHA-512 and the Ristretto one-way map send the
    /// input to.
    pub fn hash_from_bytes(input: &[u8]) -> (r: Point)
        ensures
            r@ == ristretto_hash(input@),
    {
        Point { bytes: point_hash(input) }
    }

    /// The sum of two group elements.
    pub fn add(&self, other: &Point) -> (r: Point)
        ensures
            r@ == ristretto_add(self@, other@),
    {
        proof {
            use_type_invariant(self);
            use_type_invariant(other);
        }
        Point { bytes: point_add(&self.bytes, &other.bytes) }
    }

    /// The difference of two group elements.
    pub fn sub(&self, other: &Point) -> (r: Point)
        ensures
            r@ == ristretto_sub(self@, other@),
    {
        proof {
            use_type_invariant(self);
            use_type_invariant(other);
        }
        Point { bytes: point_sub(&self.bytes, &other.bytes) }
    }

    /// The group element multiplied by a scalar.
    pub fn mul(&self, scalar: &Scalar) -> (r: Point)
        ensures
            r@ == ristretto_mul(self@, scalar@),
    {
        proof {
            use_type_invariant(self);
            use_type_invariant(scalar);
        }
        let s = scalar.to_bytes();
        Point { bytes: point_mul(&self.bytes, &s) }
    }
}

impl PartialEq for Point {
    fn eq(&self, other: &Point) -> (r: bool) {
        bytes_equal(&self.bytes, &other.bytes)
    }
}

impl vstd::std_specs::cmp::PartialEqSpecImpl for Point {
    open spec fn obeys_eq_spec() -> bool {
        true
    }

    open spec fn eq_spec(&self, other: &Point) -> bool {
        self@ == other@
    }
}

} // verus!
