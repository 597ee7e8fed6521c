//! A single-item custodial escrow protocol over externally supplied ledger
//! accounts. One party (the initializer) places a quantity of a fungible
//! asset into a custody account controlled by a keyless derived authority
//! and declares an asking amount; a counterparty (the bidder) pays that
//! amount, and the protocol settles both legs, closes the custody account,
//! and returns its storage deposit to the initializer.
//!
//! The modules hold the persistent auction record and its fixed-layout
//! codec, the error taxonomy, the derived-authority computation, and the
//! instruction processor that validates accounts and constructs the
//! exchange requests carried out by the surrounding token ledger.

pub mod authority;
pub mod error;
pub mod processor;
pub mod identity;
pub mod laws;
pub mod requests;
pub mod state;
