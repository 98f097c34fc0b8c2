//! Fair dealing for a small card game.
//!
//! Every card of a deck is hidden behind a Pedersen commitment over the
//! Ristretto group. Later, an aggregated Schnorr signature over the blinding
//! scalars of a run of commitments lets a verifier check the sum of the cards
//! behind them without seeing any card that stays closed.
//!
//! The group itself is curve25519-dalek's; the module `ristretto` is the one
//! place where it is called, and the one place whose contracts are believed
//! and not proved.

pub mod bytes;
pub mod card;
pub mod commitment;
pub mod generators;
pub mod point;
pub mod ristretto;
pub mod scalar;
pub mod schnorr;

pub use crate::card::card_to_scalar;
pub use crate::card::Card;
pub use crate::card::DEFAULT_DECK;
pub use crate::commitment::commit;
pub use crate::commitment::commit_deck;
pub use crate::commitment::commit_with;
pub use crate::commitment::decommit;
pub use crate::commitment::Commitment;
pub use crate::commitment::Revelation;
pub use crate::generators::init_gh;
pub use crate::point::Point;
pub use crate::scalar::Scalar;
pub use crate::schnorr::check_schnorr_signature;
pub use crate::schnorr::check_schnorr_signature_with_target;
pub use crate::schnorr::schnorr_sign;
pub use crate::schnorr::schnorr_sign_with_nonce;
pub use crate::schnorr::SchnorrSignature;
