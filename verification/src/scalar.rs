//! Scalars of the Ristretto group: integers modulo the group order, each kept
//! as the 32-byte little-endian encoding of its canonical representative.

use crate::bytes::bytes_equal;
use crate::bytes::le_value;
use crate::bytes::lemma_le_value_injective;
use crate::bytes::lemma_le_value_zeros;
use crate::ristretto::group_order;
use crate::ristretto::scalar_add;
use crate::ristretto::scalar_hash;
use crate::ristretto::scalar_is_canonical;
use crate::ristretto::scalar_mul;
use crate::ristretto::scalar_random;
use crate::ristretto::scalar_sub;
use crate::ristretto::sha512_scalar;
use rand::rngs::StdRng;
use vstd::prelude::*;

verus! {

/// An integer modulo the group order. Its view is the integer, which is
/// always below the group order.
#[derive(Copy, Clone, Debug, Eq)]
pub struct Scalar {
    bytes: [u8; 32],
}

impl View for Scalar {
    type V = nat;

    open spec fn view(&self) -> nat {
        le_value(self.encoding())
    }
}

impl Scalar {
    /// The 32 bytes that hold the scalar, least significant first.
    pub closed spec fn encoding(&self) -> Seq<u8> {
        self.bytes@
    }

    /// The scalar is the canonical representative of its residue class.
    #[verifier::type_invariant]
    pub open spec fn is_canonical(&self) -> bool {
        self@ < group_order()
    }

    /// A scalar is determined by the integer it stands for.
    pub proof fn lemma_view_injective(self, other: Scalar)
        requires
            self@ == other@,
        ensures
            self == other,
    {
        lemma_le_value_injective(self.bytes@, other.bytes@);
        assert(self.bytes =~= other.bytes);
    }

    /// The scalar 0.
    pub fn zero() -> (r: Scalar)
        ensures
            r@ == 0,
    {
        let bytes = [0u8; 32];
        proof {
            lemma_le_value_zeros(bytes@);
        }
        Scalar { bytes }
    }

    /// The scalar 1.
    pub fn one() -> (r: Scalar)
        ensures
            r@ == 1,
    {
        let mut bytes = [0u8; 32];
        bytes[0] = 1;
        proof {
            lemma_le_value_zeros(bytes@.skip(1));
        }
        Scalar { bytes }
    }

    /// The scalar that stands for a 64-bit number.
    pub fn from_u64(x: u64) -> (r: Scalar)
        ensures
            r@ == x,
    {
        let x1: u64 = x / 256;
        let x2: u64 = x1 / 256;
        let x3: u64 = x2 / 256;
        let x4: u64 = x3 / 256;
        let x5: u64 = x4 / 256;
        let x6: u64 = x5 / 256;
        let x7: u64 = x6 / 256;
        let mut bytes = [0u8; 32];
        bytes[0] = (x % 256) as u8;
        bytes[1] = (x1 % 256) as u8;
        bytes[2] = (x2 % 256) as u8;
        bytes[3] = (x3 % 256) as u8;
        bytes[4] = (x4 % 256) as u8;
        bytes[5] = (x5 % 256) as u8;
        bytes[6] = (x6 % 256) as u8;
        bytes[7] = (x7 % 256) as u8;
        proof {
            let s = bytes@;
            lemma_le_value_zeros(s.skip(8));
            assert(s.skip(7).skip(1) =~= s.skip(8));
            assert(s.skip(6).skip(1) =~= s.skip(7));
            assert(s.skip(5).skip(1) =~= s.skip(6));
            assert(s.skip(4).skip(1) =~= s.skip(5));
            assert(s.skip(3).skip(1) =~= s.skip(4));
            assert(s.skip(2).skip(1) =~= s.skip(3));
            assert(s.skip(1).skip(1) =~= s.skip(2));
            assert(le_value(s.skip(7)) == x7);
            assert(le_value(s.skip(6)) == x6);
            assert(le_value(s.skip(5)) == x5);
            assert(le_value(s.skip(4)) == x4);
            assert(le_value(s.skip(3)) == x3);
            assert(le_value(s.skip(2)) == x2);
            assert(le_value(s.skip(1)) == x1);
            assert(le_value(s) == x);
        }
        Scalar { bytes }
    }

    /// Reads a scalar from its encoding, which must be canonical: `None` exactly
    /// when the bytes stand for a number that is not below the group order.
    pub fn from_canonical_bytes(bytes: [u8; 32]) -> (r: Option<Scalar>)
        ensures
            r is Some <==> le_value(bytes@) < group_order(),
            r matches Some(s) ==> s.encoding() == bytes@,
    {
        if scalar_is_canonical(&bytes) {
            Some(Scalar { bytes })
        } else {
            None
        }
    }

    /// The encoding of the scalar.
    pub fn to_bytes(&self) -> (r: [u8; 32])
        ensures
            r@ == self.encoding(),
    {
        self.bytes
    }

    /// The sum modulo the group order.
    pub fn add(&self, other: &Scalar) -> (r: Scalar)
        ensures
            r@ == (self@ + other@) % group_order(),
    {
        proof {
            use_type_invariant(self);
            use_type_invariant(other);
        }
        Scalar { bytes: scalar_add(&self.bytes, &other.bytes) }
    }

    /// The difference modulo the group order.
    pub fn sub(&self, other: &Scalar) -> (r: Scalar)
        ensures
            r@ == (self@ - other@) % (group_order() as int),
    {
        proof {
            use_type_invariant(self);
            use_type_invariant(other);
        }
        Scalar { bytes: scalar_sub(&self.bytes, &other.bytes) }
    }

    /// The product modulo the group order.
    pub fn mul(&self, other: &Scalar) -> (r: Scalar)
        ensures
            r@ == (self@ * other@) % group_order(),
    {
        proof {
            use_type_invariant(self);
            use_type_invariant(other);
        }
        Scalar { bytes: scalar_mul(&self.bytes, &other.bytes) }
    }

    /// A scalar drawn from the generator. Nothing is known of it but that it
    /// is a scalar.
    pub fn random(rng: &mut StdRng) -> (r: Scalar)
        ensures
            r.is_canonical(),
    {
        Scalar { bytes: scalar_random(rng) }
    }

    /// The scalar that SHA-512 maps the input to.
    pub fn hash_from_bytes(input: &[u8]) -> (r: Scalar)
        ensures
            r@ == sha512_scalar(input@),
    {
        Scalar { bytes: scalar_hash(input) }
    }
}

impl PartialEq for Scalar {
    fn eq(&self, other: &Scalar) -> (r: bool) {
        proof {
            if self@ == other@ {
                lemma_le_value_injective(self.bytes@, other.bytes@);
            }
        }
        bytes_equal(&self.bytes, &other.bytes)
    }
}

impl vstd::std_specs::cmp::PartialEqSpecImpl for Scalar {
    open spec fn obeys_eq_spec() -> bool {
        true
    }

    open spec fn eq_spec(&self, other: &Scalar) -> bool {
        self@ == other@
    }
}

} // verus!
