//! What the escrow reads of an account that a command names.

use vstd::prelude::*;
use crate::address::Address;

verus! {

/// An account as a command sees it.
#[derive(Clone, Debug, PartialEq, Eq)]
pub struct Account {
    /// The account's identity.
    pub key: Address,
    /// The program that the account belongs to.
    pub owner: Address,
    /// Whether the account's holder has signed the command.
    pub is_signer: bool,
    /// The account's balance in the ledger's own currency.
    pub lamports: u64,
    /// The bytes that the account holds.
    pub data: Vec<u8>,
}

} // verus!
