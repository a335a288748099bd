//! Protocol core for hold-invoice based payment flows on a Fiber-style
//! payment channel network.
//!
//! The crate covers three cooperating layers:
//!
//! * cryptographic primitives: preimages and payment hashes, commit-reveal
//!   commitments, adaptor signature points and XOR-encrypted preimages;
//! * a narrow hold-invoice client capability with an in-memory mock;
//! * the protocol state machines: the oracle's game sessions, the player's
//!   game driver, and the escrow order engine.

pub mod adaptor;
pub mod bytes;
pub mod commitment;

pub mod encoding;
pub mod games;
pub mod errors;
pub mod escrow;
pub mod fiber;
pub mod hashing;
pub mod mock;
pub mod oracle;
pub mod payment;
pub mod player;
pub mod protocol;
