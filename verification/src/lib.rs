//! A time-locked custody library: positions of locked value with an owner,
//! a maturity clock, an early-unlock deactivation path, and a marketplace
//! for transferring ownership of a position before maturity. The `escrow`
//! module is the marketplace-free subset: one user, one locked amount, one
//! unlock time. The `authority` module derives the signing authority that
//! controls a position's custody from the record identity alone.

pub mod authority;
pub mod errors;
pub mod escrow;
pub mod ledger;
pub mod position;

pub use errors::ErrorKind;
pub use ledger::Ledger;
pub use position::Position;
