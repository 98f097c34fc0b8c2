//! An aggregated Schnorr signature over blinding scalars.
//!
//! The signer knows the blinding scalars of a run of commitments and proves
//! knowledge of the sum of all but the first, the key, relative to the
//! generator `h`: it draws a nonce `k`, derives the challenge `e` from `h·k`
//! by hashing, and answers with `s = k - key·e`. The verifier sums all
//! commitments but the first, takes the generator `g` away once, and accepts
//! when `h·s + y·e` hashes to `e` again.

use crate::commitment::Commitment;
use crate::point::Point;
use crate::ristretto::group_order;
use crate::ristretto::identity_encoding;
use crate::ristretto::ristretto_add;
use crate::ristretto::ristretto_mul;
use crate::ristretto::ristretto_sub;
use crate::ristretto::sha512_scalar;
use crate::scalar::Scalar;
use rand::rngs::StdRng;
use vstd::arithmetic::div_mod::lemma_add_mod_noop;
use vstd::arithmetic::div_mod::lemma_mod_equivalence;
use vstd::arithmetic::div_mod::lemma_small_mod;
use vstd::arithmetic::div_mod::lemma_sub_mod_noop_right;
use vstd::prelude::*;

verus! {

/// The sum of a sequence of numbers.
pub open spec fn sum(values: Seq<nat>) -> nat
    decreases values.len(),
{
    if values.len() == 0 {
        0
    } else {
        sum(values.drop_last()) + values.last()
    }
}

/// The sum of a sequence of encoded group elements, taken from the left and
/// starting at the neutral element.
pub open spec fn point_sum(points: Seq<Seq<u8>>) -> Seq<u8>
    decreases points.len(),
{
    if points.len() == 0 {
        identity_encoding()
    } else {
        ristretto_add(point_sum(points.drop_last()), points.last())
    }
}

/// The integers that a sequence of scalars stands for.
pub open spec fn scalar_values(scalars: Seq<Scalar>) -> Seq<nat> {
    scalars.map_values(|s: Scalar| s@)
}

/// The encodings of a sequence of commitments.
pub open spec fn commitment_encodings(commitments: Seq<Commitment>) -> Seq<Seq<u8>> {
    commitments.map_values(|c: Commitment| c@)
}

/// The key that a sequence of blinding scalars signs with: the sum, modulo
/// the group order, of all of them but the first.
pub open spec fn signing_key(openings: Seq<nat>) -> nat {
    sum(openings.skip(1)) % group_order()
}

/// The challenge that belongs to an encoded group element: its SHA-512 hash,
/// read as a scalar.
pub open spec fn challenge(point: Seq<u8>) -> nat {
    sha512_scalar(point)
}

/// The response `k - key·e`, modulo the group order.
pub open spec fn response(key: nat, nonce: nat, e: nat) -> nat {
    ((nonce - key * e) % (group_order() as int)) as nat
}

/// A signature: the response `s` and the challenge `e`.
#[derive(Copy, Clone, Debug, Eq)]
pub struct SchnorrSignature {
    pub s: Scalar,
    pub e: Scalar,
}

impl PartialEq for SchnorrSignature {
    fn eq(&self, other: &SchnorrSignature) -> (r: bool) {
        self.s == other.s && self.e == other.e
    }
}

impl vstd::std_specs::cmp::PartialEqSpecImpl for SchnorrSignature {
    open spec fn obeys_eq_spec() -> bool {
        true
    }

    open spec fn eq_spec(&self, other: &SchnorrSignature) -> bool {
        self.s@ == other.s@ && self.e@ == other.e@
    }
}

/// Whether `sig` is the signature over the blinding scalars `openings` that
/// the nonce `nonce` gives under the generator `h`.
pub open spec fn signed(h: Seq<u8>, openings: Seq<nat>, nonce: nat, sig: SchnorrSignature) -> bool {
    &&& sig.e@ == challenge(ristretto_mul(h, nonce))
    &&& sig.s@ == response(signing_key(openings), nonce, sig.e@)
}

/// Whether the signature `(s, e)` proves knowledge of the discrete logarithm
/// of the encoded group element `y` relative to `h`: whether `h·s + y·e`
/// hashes to `e` again.
pub open spec fn proves(h: Seq<u8>, y: Seq<u8>, s: nat, e: nat) -> bool {
    challenge(ristretto_add(ristretto_mul(h, s), ristretto_mul(y, e))) == e
}

/// Whether the verifier accepts the signature `(s, e)` for a run of encoded
/// commitments under the generators `g` and `h`: the sum of all commitments
/// but the first, less `g`, is what the signature has to prove.
pub open spec fn accepts(g: Seq<u8>, h: Seq<u8>, commitments: Seq<Seq<u8>>, s: nat, e: nat) -> bool {
    proves(h, ristretto_sub(point_sum(commitments.skip(1)), g), s, e)
}

/// As `accepts`, with `g·target` taken away in place of `g`: `target` is the
/// sum that the cards behind all commitments but the first are claimed to
/// have.
pub open spec fn accepts_target(
    g: Seq<u8>,
    h: Seq<u8>,
    commitments: Seq<Seq<u8>>,
    s: nat,
    e: nat,
    target: nat,
) -> bool {
    proves(h, ristretto_sub(point_sum(commitments.skip(1)), ristretto_mul(g, target)), s, e)
}

/// The sum of all scalars but the first.
fn tail_sum(rs: &[Scalar]) -> (key: Scalar)
    requires
        rs.len() >= 1,
    ensures
        key@ == signing_key(scalar_values(rs@)),
{
    let ghost values = scalar_values(rs@);
    let mut key = Scalar::zero();
    let mut i: usize = 1;
    proof {
        lemma_small_mod(0, group_order());
    }
    while i < rs.len()
        invariant
            1 <= i <= rs.len(),
            values == scalar_values(rs@),
            key@ == sum(values.subrange(1, i as int)) % group_order(),
        decreases rs.len() - i,
    {
        let r = rs[i];
        proof {
            use_type_invariant(&r);
            let before = values.subrange(1, i as int);
            let after = values.subrange(1, i + 1);
            assert(after.drop_last() =~= before);
            assert(after.last() == r@);
            lemma_add_mod_noop(sum(before) as int, r@ as int, group_order() as int);
            lemma_small_mod(r@, group_order());
        }
        key = key.add(&r);
        i += 1;
    }
    assert(values.subrange(1, rs.len() as int) =~= values.skip(1));
    key
}

/// The sum of all commitments but the first.
fn tail_point_sum(cs: &[Commitment]) -> (y: Point)
    requires
        cs.len() >= 1,
    ensures
        y@ == point_sum(commitment_encodings(cs@).skip(1)),
{
    let ghost encodings = commitment_encodings(cs@);
    let mut y = Point::identity();
    let mut i: usize = 1;
    while i < cs.len()
        invariant
            1 <= i <= cs.len(),
            encodings == commitment_encodings(cs@),
            y@ == point_sum(encodings.subrange(1, i as int)),
        decreases cs.len() - i,
    {
        let c = cs[i].point();
        proof {
            let before = encodings.subrange(1, i as int);
            let after = encodings.subrange(1, i + 1);
            assert(after.drop_last() =~= before);
            assert(after.last() == c@);
        }
        y = y.add(&c);
        i += 1;
    }
    assert(encodings.subrange(1, cs.len() as int) =~= encodings.skip(1));
    y
}

/// Recomputes the challenge from `h·s + y·e` and compares it with `e`.
fn check_proof(h: Point, y: Point, sig: SchnorrSignature) -> (b: bool)
    ensures
        b == proves(h@, y@, sig.s@, sig.e@),
{
    let r = h.mul(&sig.s).add(&y.mul(&sig.e)).to_bytes();
    Scalar::hash_from_bytes(r.as_slice()) == sig.e
}

/// Signs with a given nonce `k`, which no other signature under the same key
/// may share: the key leaks from two signatures with one nonce.
pub fn schnorr_sign_with_nonce(k: Scalar, h: Point, rs: &[Scalar]) -> (sig: SchnorrSignature)
    requires
        rs.len() >= 1,
    ensures
        signed(h@, scalar_values(rs@), k@, sig),
{
    let key = tail_sum(rs);
    let commitment = h.mul(&k).to_bytes();
    let e = Scalar::hash_from_bytes(commitment.as_slice());
    let s = k.sub(&key.mul(&e));
    proof {
        lemma_sub_mod_noop_right(k@ as int, (key@ * e@) as int, group_order() as int);
    }
    SchnorrSignature { s, e }
}

/// Signs the blinding scalars `rs` under the generator `h`, with a nonce
/// freshly drawn from `r`. Which nonce that is, is up to the generator: the
/// result is the signature that some nonce gives.
pub fn schnorr_sign(r: &mut StdRng, h: Point, rs: &[Scalar]) -> (sig: SchnorrSignature)
    requires
        rs.len() >= 1,
    ensures
        exists|k: nat| k < group_order() && #[trigger] signed(h@, scalar_values(rs@), k, sig),
{
    let k = Scalar::random(r);
    let sig = schnorr_sign_with_nonce(k, h, rs);
    proof {
        use_type_invariant(&k);
        assert(signed(h@, scalar_values(rs@), k@, sig));
    }
    sig
}

/// Checks a signature against the commitments `cs` under the generators
/// `(g, h)`. Rejection is an answer, not a failure.
pub fn check_schnorr_signature(gh: (Point, Point), cs: &[Commitment], sig: SchnorrSignature) -> (b:
    bool)
    requires
        cs.len() >= 1,
    ensures
        b == accepts(gh.0@, gh.1@, commitment_encodings(cs@), sig.s@, sig.e@),
{
    let (g, h) = gh;
    let y = tail_point_sum(cs).sub(&g);
    check_proof(h, y, sig)
}

/// Checks a signature against the commitments `cs` as `check_schnorr_signature`
/// does, for a claimed sum `target` of the cards behind all commitments but
/// the first: `g·target` is taken away in place of `g`.
pub fn check_schnorr_signature_with_target(
    gh: (Point, Point),
    cs: &[Commitment],
    sig: SchnorrSignature,
    target: Scalar,
) -> (b: bool)
    requires
        cs.len() >= 1,
    ensures
        b == accepts_target(gh.0@, gh.1@, commitment_encodings(cs@), sig.s@, sig.e@, target@),
{
    let (g, h) = gh;
    let y = tail_point_sum(cs).sub(&g.mul(&target));
    check_proof(h, y, sig)
}

/// The blinding scalars and the nonce determine the signature.
pub proof fn lemma_nonce_determines_signature(
    h: Seq<u8>,
    openings: Seq<nat>,
    k: nat,
    sig1: SchnorrSignature,
    sig2: SchnorrSignature,
)
    requires
        signed(h, openings, k, sig1),
        signed(h, openings, k, sig2),
    ensures
        sig1 == sig2,
{
    sig1.e.lemma_view_injective(sig2.e);
    sig1.s.lemma_view_injective(sig2.s);
}

/// Two signatures over the same blinding scalars differ when their nonces
/// do: either the challenges differ, or the responses do.
pub proof fn lemma_distinct_nonces_distinct_signatures(
    h: Seq<u8>,
    openings: Seq<nat>,
    k1: nat,
    k2: nat,
    sig1: SchnorrSignature,
    sig2: SchnorrSignature,
)
    requires
        k1 < group_order(),
        k2 < group_order(),
        k1 != k2,
        signed(h, openings, k1, sig1),
        signed(h, openings, k2, sig2),
    ensures
        sig1.s@ != sig2.s@ || sig1.e@ != sig2.e@,
        sig1 != sig2,
{
    if sig1.e@ == sig2.e@ && sig1.s@ == sig2.s@ {
        let m = group_order() as int;
        let x = signing_key(openings) * sig1.e@;
        assert((k1 - x) % m == (k2 - x) % m);
        lemma_mod_equivalence(k1 - x, k2 - x, m);
        lemma_mod_equivalence(k2 - x, k1 - x, m);
        if k1 > k2 {
            lemma_small_mod((k1 - k2) as nat, group_order());
        } else {
            lemma_small_mod((k2 - k1) as nat, group_order());
        }
    }
}

} // verus!
