//! The two generators that every commitment is built on.

use crate::point::Point;
use crate::ristretto::ristretto_hash;
use vstd::prelude::*;
use vstd::string::StringSliceAdditionalSpecFns;

verus! {

/// The first generator, `g`: the label `AMONI` hashed into the group.
pub open spec fn generator_g() -> Seq<u8> {
    ristretto_hash("AMONI".spec_bytes())
}

/// The second generator, `h`: the label `SAGOD` hashed into the group.
pub open spec fn generator_h() -> Seq<u8> {
    ristretto_hash("SAGOD".spec_bytes())
}

/// The generators `(g, h)`. Both are hashed from fixed labels, so every call,
/// in every process, returns the same pair, and nobody knows how `g` and `h`
/// relate to each other.
pub fn init_gh() -> (gh: (Point, Point))
    ensures
        gh.0@ == generator_g(),
        gh.1@ == generator_h(),
{
    (Point::hash_from_bytes("AMONI".as_bytes()), Point::hash_from_bytes("SAGOD".as_bytes()))
}

} // verus!
