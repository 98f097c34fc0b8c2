//! Pedersen commitments to cards: `C = g·v + h·r` hides the card `v` behind the
//! blinding scalar `r`, and the pair `(r, card)` opens it again.

use crate::card::card_to_scalar;
use crate::card::Card;
use crate::point::Point;
use crate::ristretto::ristretto_add;
use crate::ristretto::ristretto_mul;
use crate::scalar::Scalar;
use rand::rngs::StdRng;
use vstd::prelude::*;

verus! {

/// The encoding of `g·value + h·blinding`.
pub open spec fn pedersen(g: Seq<u8>, h: Seq<u8>, value: nat, blinding: nat) -> Seq<u8> {
    ristretto_add(ristretto_mul(g, value), ristretto_mul(h, blinding))
}

/// A commitment to one card: a single group element. Its view is the
/// encoding of that element.
#[derive(Copy, Clone, Debug, Eq)]
pub struct Commitment(Point);

impl View for Commitment {
    type V = Seq<u8>;

    closed spec fn view(&self) -> Seq<u8> {
        self.0@
    }
}

impl Commitment {
    /// Takes a group element, say one that another party sent, as a commitment.
    pub fn new(point: Point) -> (c: Commitment)
        ensures
            c@ == point@,
    {
        Commitment(point)
    }

    /// The group element that is the commitment.
    pub fn point(&self) -> (p: Point)
        ensures
            p@ == self@,
    {
        self.0
    }
}

impl PartialEq for Commitment {
    fn eq(&self, other: &Commitment) -> (r: bool) {
        self.0 == other.0
    }
}

impl vstd::std_specs::cmp::PartialEqSpecImpl for Commitment {
    open spec fn obeys_eq_spec() -> bool {
        true
    }

    open spec fn eq_spec(&self, other: &Commitment) -> bool {
        self@ == other@
    }
}

/// What opens a commitment: the blinding scalar `r` and the card `c`.
#[derive(Copy, Clone, Debug, Eq)]
pub struct Revelation {
    pub r: Scalar,
    pub c: Card,
}

impl PartialEq for Revelation {
    fn eq(&self, other: &Revelation) -> (r: bool) {
        self.r == other.r && self.c == other.c
    }
}

impl vstd::std_specs::cmp::PartialEqSpecImpl for Revelation {
    open spec fn obeys_eq_spec() -> bool {
        true
    }

    open spec fn eq_spec(&self, other: &Revelation) -> bool {
        self.r@ == other.r@ && self.c == other.c
    }
}

/// Whether the revelation opens the commitment under the generators `(g, h)`:
/// whether the commitment is `g·v + h·r` for the revelation's card `v` and
/// scalar `r`.
pub open spec fn opens(gh: (Point, Point), commitment: Commitment, revelation: Revelation) -> bool {
    commitment@ == pedersen(gh.0@, gh.1@, revelation.c.value(), revelation.r@)
}

/// A commitment built from a card and a blinding scalar is opened by that
/// scalar and that card.
pub proof fn lemma_commitment_opens(
    gh: (Point, Point),
    card: Card,
    r: Scalar,
    commitment: Commitment,
)
    requires
        commitment@ == pedersen(gh.0@, gh.1@, card.value(), r@),
    ensures
        opens(gh, commitment, Revelation { r, c: card }),
{
}

/// A commitment built from one card is not opened by a revelation that
/// claims another card, unless the two openings collide, that is, give the
/// same group element. Whether they do is a matter of the group, not of the
/// encodings; to find such a pair is to find how `g` and `h` relate.
pub proof fn lemma_other_card_opens_only_by_collision(
    gh: (Point, Point),
    card: Card,
    r: Scalar,
    commitment: Commitment,
    claim: Revelation,
)
    requires
        commitment@ == pedersen(gh.0@, gh.1@, card.value(), r@),
        claim.c != card,
        pedersen(gh.0@, gh.1@, claim.c.value(), claim.r@) != pedersen(
            gh.0@,
            gh.1@,
            card.value(),
            r@,
        ),
    ensures
        !opens(gh, commitment, claim),
{
}

/// Commits to a card under a given blinding scalar, which no other
/// commitment may share.
pub fn commit_with(gh: (Point, Point), card: Card, r: Scalar) -> (res: (Commitment, Revelation))
    ensures
        res.0@ == pedersen(gh.0@, gh.1@, card.value(), r@),
        res.1.r == r,
        res.1.c == card,
{
    let v = card_to_scalar(card);
    let gv = gh.0.mul(&v);
    let hr = gh.1.mul(&r);
    (Commitment(gv.add(&hr)), Revelation { r, c: card })
}

/// Commits to a card under a blinding scalar freshly drawn from `rng`, and
/// returns the commitment with the revelation that opens it.
pub fn commit(gh: (Point, Point), card: Card, rng: &mut StdRng) -> (res: (Commitment, Revelation))
    ensures
        res.1.c == card,
        opens(gh, res.0, res.1),
{
    let r = Scalar::random(rng);
    commit_with(gh, card, r)
}

/// Checks a revelation against a commitment: recomputes `g·v + h·r` and
/// compares. A mismatch is an answer, not a failure.
pub fn decommit(gh: (Point, Point), commitment: &Commitment, revelation: &Revelation) -> (b: bool)
    ensures
        b == opens(gh, *commitment, *revelation),
{
    let v = card_to_scalar(revelation.c);
    let gv = gh.0.mul(&v);
    let hr = gh.1.mul(&revelation.r);
    gv.add(&hr) == commitment.0
}

/// Commits to every card of the deck, in order, each under its own fresh
/// blinding scalar. Position `i` of both results belongs to card `i`.
pub fn commit_deck(gh: (Point, Point), deck: &[Card], rng: &mut StdRng) -> (res: (
    Vec<Commitment>,
    Vec<Revelation>,
))
    ensures
        res.0.len() == deck.len(),
        res.1.len() == deck.len(),
        forall|i: int|
            #![trigger res.0[i]]
            #![trigger res.1[i]]
            0 <= i < deck.len() ==> res.1[i].c == deck[i] && opens(gh, res.0[i], res.1[i]),
{
    let mut commitments: Vec<Commitment> = Vec::new();
    let mut revelations: Vec<Revelation> = Vec::new();
    let mut i: usize = 0;
    while i < deck.len()
        invariant
            i <= deck.len(),
            commitments.len() == i,
            revelations.len() == i,
            forall|j: int|
                #![trigger commitments[j]]
                #![trigger revelations[j]]
                0 <= j < i ==> revelations[j].c == deck[j] && opens(
                    gh,
                    commitments[j],
                    revelations[j],
                ),
        decreases deck.len() - i,
    {
        let (c, rev) = commit(gh, deck[i], rng);
        commitments.push(c);
        revelations.push(rev);
        i += 1;
    }
    (commitments, revelations)
}

} // verus!
