//! The cards of the game and their public encoding as scalars.

use crate::scalar::Scalar;
use vstd::prelude::*;

verus! {

/// A card of the deck: the skull is the marked card, the rose the plain one.
#[derive(Copy, Clone, Debug, PartialEq, Eq, Structural)]
pub enum Card {
    Skull,
    Rose,
}

impl Card {
    /// The number that stands for the card inside a commitment: 1 for the
    /// skull, 0 for the rose.
    pub open spec fn value(self) -> nat {
        match self {
            Card::Skull => 1,
            Card::Rose => 0,
        }
    }
}

/// The deck a game starts from: one skull, then three roses.
pub const DEFAULT_DECK: [Card; 4] = [Card::Skull, Card::Rose, Card::Rose, Card::Rose];

/// The scalar that stands for a card. The mapping is public and total.
pub fn card_to_scalar(card: Card) -> (s: Scalar)
    ensures
        s@ == card.value(),
{
    match card {
        Card::Skull => Scalar::one(),
        Card::Rose => Scalar::zero(),
    }
}

} // verus!
