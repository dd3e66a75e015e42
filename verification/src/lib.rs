//! A two-party token-swap escrow: the record, the command encoding and the
//! rules by which a command turns one record into the next.

pub mod account;
pub mod address;
pub mod codec;
pub mod custody;
pub mod errors;
pub mod guard;
pub mod instructions;
pub mod laws;
pub mod ledger;
pub mod processor;
pub mod record;
pub mod rent;
pub mod state;

pub use state::{Escrow, EscrowStatus};
