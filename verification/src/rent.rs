//! Whether an account holds the balance that exempts it from rent.

use vstd::prelude::*;
use vstd::bytes::spec_u64_from_le_bytes;
use solana_program::account_info::AccountInfo;
use solana_program::pubkey::Pubkey;
use solana_program::rent::Rent;
use solana_program::sysvar::SysvarSerialize;
use crate::account::Account;
use crate::codec::read_u64;
use crate::errors::EscrowError;

verus! {

/// Bytes that the ledger counts for an account beyond those it holds.
pub const ACCOUNT_STORAGE_OVERHEAD: u64 = 128;

/// What `Rent::is_exempt` says of an account with the given balance that
/// holds `data_len` bytes, for the rent table that `Rent::from_account_info`
/// reads from the account with the identity `rent_key` and the bytes
/// `rent_data`: exempt or not, or nothing where that account is not the
/// rent table.
pub uninterp spec fn rent_exemption(rent_key: Seq<u8>, rent_data: Seq<u8>, balance: u64, data_len: usize) -> Option<bool>;

/// The price of a byte that a rent table opens with.
pub open spec fn rent_rate(rent_data: Seq<u8>) -> u64 {
    spec_u64_from_le_bytes(rent_data.subrange(0, 8))
}

/// Whether the price of `data_len` bytes, with the overhead, can be
/// computed from the table without overflow.
pub open spec fn rent_computable(rent_data: Seq<u8>, data_len: usize) -> bool {
    rent_data.len() >= 8 ==> {
        &&& ACCOUNT_STORAGE_OVERHEAD + data_len <= u64::MAX
        &&& (ACCOUNT_STORAGE_OVERHEAD + data_len) * rent_rate(rent_data) <= u64::MAX
    }
}

/// Calls `Rent::from_account_info` on the account and, where that gives a
/// rent table, `Rent::is_exempt` on it.
///
/// The contract claims only that the outcome is a function of the
/// account's identity and bytes, of the balance and of the length. The
/// table multiplies its price by the length with the overhead; inputs on
/// which that product overflows are left out.
#[verifier::external_body]
fn rent_is_exempt(rent_account: &Account, balance: u64, data_len: usize) -> (r: Option<bool>)
    requires
        rent_computable(rent_account.data@, data_len),
    ensures
        r == rent_exemption(rent_account.key@, rent_account.data@, balance, data_len),
{
    let key = Pubkey::new_from_array(rent_account.key.bytes);
    let owner = Pubkey::new_from_array(rent_account.owner.bytes);
    let mut lamports = rent_account.lamports;
    let mut data = rent_account.data.clone();
    let info = AccountInfo::new(&key, rent_account.is_signer, false, &mut lamports, &mut data, &owner, false);
    match Rent::from_account_info(&info) {
        Ok(rent) => Some(rent.is_exempt(balance, data_len)),
        Err(_) => None,
    }
}

/// What the rent table's word on an account means for it.
pub open spec fn rent_verdict_spec(verdict: Option<bool>) -> Result<(), EscrowError> {
    match verdict {
        None => Err(EscrowError::InvalidArgument),
        Some(false) => Err(EscrowError::AccountNotRentExempt),
        Some(true) => Ok(()),
    }
}

/// Turns the rent table's word on an account into the outcome of the
/// check: an account that is not exempt is refused with
/// `AccountNotRentExempt`, and no word at all with `InvalidArgument`.
pub fn rent_verdict(verdict: Option<bool>) -> (r: Result<(), EscrowError>)
    ensures
        r == rent_verdict_spec(verdict),
{
    match verdict {
        None => Err(EscrowError::InvalidArgument),
        Some(false) => Err(EscrowError::AccountNotRentExempt),
        Some(true) => Ok(()),
    }
}

/// The outcome of checking `account` against the rent table held by
/// `rent_account`.
pub open spec fn check_rent_exempt_spec(account: &Account, rent_account: &Account) -> Result<
    (),
    EscrowError,
> {
    if !rent_computable(rent_account.data@, account.data.len()) {
        Err(EscrowError::InvalidArgument)
    } else {
        rent_verdict_spec(
            rent_exemption(
                rent_account.key@,
                rent_account.data@,
                account.lamports,
                account.data.len(),
            ),
        )
    }
}

/// Checks that `account` holds the balance that exempts it from rent,
/// going by the rent table that `rent_account` holds.
///
/// Refused with `InvalidArgument` when `rent_account` does not hold the
/// rent table, or holds one whose price overflows on the account's
/// length; with `AccountNotRentExempt` when the balance is too small.
pub fn check_rent_exempt(account: &Account, rent_account: &Account) -> (r: Result<(), EscrowError>)
    ensures
        r == check_rent_exempt_spec(account, rent_account),
{
    let data_len = account.data.len();
    if rent_account.data.len() >= 8 {
        let rate = read_u64(rent_account.data.as_slice(), 0);
        let priced = match ACCOUNT_STORAGE_OVERHEAD.checked_add(data_len as u64) {
            Some(bytes) => bytes.checked_mul(rate),
            None => None,
        };
        if priced.is_none() {
            return Err(EscrowError::InvalidArgument);
        }
    }
    rent_verdict(rent_is_exempt(rent_account, account.lamports, data_len))
}

} // verus!
