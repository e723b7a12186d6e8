//! A custodial payment settlement core.
//!
//! Merchants register payment requests against a ledger of records with a
//! secondary reference index; an operator or admin confirms or expires them;
//! custodial wallets hold funds that an authorized principal can withdraw or
//! sweep into a vault with a fee surcharge.
//!
//! The host facilities the core relies on (durable storage, the asset ledger,
//! caller authentication, the clock, the vault's fee policy) are external
//! collaborators: the core takes their readings as plain values and keeps all
//! state in explicit structures, so that every rule and invariant is stated
//! and proved here.

pub mod addresses;
pub mod engine;
pub mod errors;
pub mod events;
pub mod laws;
pub mod ledger;
pub mod requests;
pub mod wallet;
