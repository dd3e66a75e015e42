//! The custodial authority of an escrow and the token movements made into
//! and out of its custody.
//!
//! The authority is derived from the record's own identity and the
//! program's: nobody holds a key for it, and only the program can move
//! what is held under it.

use vstd::prelude::*;
use vstd::bytes::spec_u64_to_le_bytes;
use solana_program::program_error::ProgramError;
use solana_program::pubkey::Pubkey;
use crate::address::{lemma_from_seq, Address};
use crate::errors::EscrowError;

verus! {

/// `ProgramError` of `solana_program`, the error that the token program's
/// instruction builders return. Nothing is claimed of it: it is carried
/// through unread.
#[verifier::external_type_specification]
#[verifier::external_body]
pub struct ExProgramError(ProgramError);

/// One account that an instruction to the token program names.
#[derive(Clone, Copy, Debug, PartialEq, Eq)]
pub struct AccountMeta {
    pub pubkey: Address,
    pub is_signer: bool,
    pub is_writable: bool,
}

/// An instruction to the token program that moves tokens from one token
/// account to another.
#[derive(Clone, Debug, PartialEq, Eq)]
pub struct TransferInstruction {
    /// The program that is to carry the instruction out.
    pub program_id: Address,
    /// The accounts that the instruction names, in order.
    pub accounts: Vec<AccountMeta>,
    /// The instruction's bytes.
    pub data: Vec<u8>,
}

/// What a `TransferInstruction` holds.
pub ghost struct TransferInstructionView {
    pub program_id: Address,
    pub accounts: Seq<AccountMeta>,
    pub data: Seq<u8>,
}

impl View for TransferInstruction {
    type V = TransferInstructionView;

    open spec fn view(&self) -> TransferInstructionView {
        TransferInstructionView {
            program_id: self.program_id,
            accounts: self.accounts@,
            data: self.data@,
        }
    }
}

/// The bytes of the token program's identity.
pub open spec fn token_program_id() -> Seq<u8> {
    seq![
        6u8, 221, 246, 225, 215, 101, 161, 147, 217, 203, 225, 70, 206, 235, 121, 172,
        28, 180, 133, 237, 95, 91, 55, 145, 58, 140, 245, 133, 126, 255, 0, 169,
    ]
}

/// The instruction that moves `amount` tokens from `source` to
/// `destination` on the word of `authority`: the source and the
/// destination are written to, the authority signs, and the bytes are the
/// number 3 followed by the amount, least significant byte first.
pub open spec fn transfer_spec(
    token_program: Address,
    source: Address,
    destination: Address,
    authority: Address,
    amount: u64,
) -> TransferInstructionView {
    TransferInstructionView {
        program_id: token_program,
        accounts: seq![
            AccountMeta { pubkey: source, is_signer: false, is_writable: true },
            AccountMeta { pubkey: destination, is_signer: false, is_writable: true },
            AccountMeta { pubkey: authority, is_signer: true, is_writable: false },
        ],
        data: seq![3u8] + spec_u64_to_le_bytes(amount),
    }
}

/// What `Pubkey::try_find_program_address` derives from two seeds and a
/// program's identity: an identity without a key and the byte that
/// completes the seeds, or nothing.
pub uninterp spec fn program_address(first_seed: Seq<u8>, second_seed: Seq<u8>, program_id: Seq<u8>) -> Option<(Seq<u8>, u8)>;

/// Calls `Pubkey::try_find_program_address` with the two seeds.
///
/// The contract claims only that the outcome is a function of the seeds
/// and the program's identity; which identity comes out is not stated.
#[verifier::external_body]
fn find_program_address(first_seed: &[u8], second_seed: &[u8], program_id: &Address) -> (r: Option<(Address, u8)>)
    ensures
        match r {
            Some((address, bump)) => program_address(first_seed@, second_seed@, program_id@)
                == Some((address@, bump)),
            None => program_address(first_seed@, second_seed@, program_id@) is None,
        },
{
    let program = Pubkey::new_from_array(program_id.bytes);
    match Pubkey::try_find_program_address(&[first_seed, second_seed], &program) {
        Some((key, bump)) => Some((Address { bytes: key.to_bytes() }, bump)),
        None => None,
    }
}

/// Calls `spl_token::instruction::transfer` with no further signers.
///
/// The contract claims what that function's source shows: it succeeds
/// exactly for the token program's own identity, and the instruction then
/// names the source and the destination as written to and the authority
/// as signer, with the bytes of a transfer of `amount`.
#[verifier::external_body]
fn token_transfer(
    token_program: &Address,
    source: &Address,
    destination: &Address,
    authority: &Address,
    amount: u64,
) -> (r: Result<TransferInstruction, ProgramError>)
    ensures
        r is Ok <==> token_program@ == token_program_id(),
        r is Ok ==> r->Ok_0@ == transfer_spec(
            *token_program,
            *source,
            *destination,
            *authority,
            amount,
        ),
{
    let ix = spl_token::instruction::transfer(
        &Pubkey::new_from_array(token_program.bytes),
        &Pubkey::new_from_array(source.bytes),
        &Pubkey::new_from_array(destination.bytes),
        &Pubkey::new_from_array(authority.bytes),
        &[],
        amount,
    )?;
    let accounts = ix.accounts.iter().map(|m| AccountMeta {
        pubkey: Address { bytes: m.pubkey.to_bytes() },
        is_signer: m.is_signer,
        is_writable: m.is_writable,
    }).collect();
    Ok(TransferInstruction { program_id: Address { bytes: ix.program_id.to_bytes() }, accounts, data: ix.data })
}

/// The seed that marks an address as an escrow's vault: the word "vault".
pub open spec fn vault_seed() -> Seq<u8> {
    seq![118u8, 97, 117, 108, 116]
}

/// The custodial authority of one escrow.
#[derive(Clone, Copy, Debug, PartialEq, Eq)]
pub struct VaultCustodian {
    /// The identity under which the deposits are held.
    pub authority: Address,
    /// The byte that completes the seeds from which the authority derives.
    pub bump: u8,
}

impl VaultCustodian {
    /// The custodial authority of the escrow whose record has the identity
    /// `handle`, under the program `program_id`.
    pub open spec fn derive_spec(program_id: Address, handle: Address) -> Option<VaultCustodian> {
        match program_address(vault_seed(), handle@, program_id@) {
            Some((address, bump)) => Some(
                VaultCustodian { authority: Address::from_seq(address), bump },
            ),
            None => None,
        }
    }

    /// Derives the custodial authority of the escrow whose record has the
    /// identity `handle`. Nothing is stored and nothing is secret: the
    /// same record and program always give the same authority.
    pub fn derive(program_id: &Address, handle: &Address) -> (r: Option<VaultCustodian>)
        ensures
            r == VaultCustodian::derive_spec(*program_id, *handle),
    {
        let seed: [u8; 5] = [118, 97, 117, 108, 116];
        assert(seed@ =~= vault_seed());
        match find_program_address(seed.as_slice(), handle.bytes.as_slice(), program_id) {
            Some((authority, bump)) => {
                proof {
                    lemma_from_seq(authority);
                }
                Some(VaultCustodian { authority, bump })
            },
            None => None,
        }
    }

    /// The instruction by which `depositor` pays `amount` from its token
    /// account `source` into the vault's token account, or the refusal
    /// `TransferFailed`.
    pub open spec fn receive_spec(
        token_program: Address,
        depositor: Address,
        source: Address,
        vault_account: Address,
        amount: u64,
    ) -> Result<TransferInstructionView, EscrowError> {
        if token_program@ == token_program_id() {
            Ok(transfer_spec(token_program, source, vault_account, depositor, amount))
        } else {
            Err(EscrowError::TransferFailed)
        }
    }

    /// The instruction by which the vault pays `amount` from its token
    /// account to `destination` on the custodial authority's word, or the
    /// refusal `TransferFailed`.
    pub open spec fn release_spec(
        self,
        token_program: Address,
        vault_account: Address,
        destination: Address,
        amount: u64,
    ) -> Result<TransferInstructionView, EscrowError> {
        if token_program@ == token_program_id() {
            Ok(transfer_spec(token_program, vault_account, destination, self.authority, amount))
        } else {
            Err(EscrowError::TransferFailed)
        }
    }

    /// Makes the instruction that moves `amount` from `source`, a token
    /// account of `depositor`, into custody. Refused with
    /// `TransferFailed` when `token_program` is not the token program.
    pub fn receive(
        token_program: &Address,
        depositor: &Address,
        source: &Address,
        vault_account: &Address,
        amount: u64,
    ) -> (r: Result<TransferInstruction, EscrowError>)
        ensures
            view_result(r) == VaultCustodian::receive_spec(
                *token_program,
                *depositor,
                *source,
                *vault_account,
                amount,
            ),
    {
        match token_transfer(token_program, source, vault_account, depositor, amount) {
            Ok(instruction) => Ok(instruction),
            Err(_) => Err(EscrowError::TransferFailed),
        }
    }

    /// Makes the instruction that moves `amount` out of custody to
    /// `destination`, on the custodial authority's word alone. Refused
    /// with `TransferFailed` when `token_program` is not the token
    /// program.
    pub fn release(
        &self,
        token_program: &Address,
        vault_account: &Address,
        destination: &Address,
        amount: u64,
    ) -> (r: Result<TransferInstruction, EscrowError>)
        ensures
            view_result(r) == self.release_spec(
                *token_program,
                *vault_account,
                *destination,
                amount,
            ),
    {
        match token_transfer(token_program, vault_account, destination, &self.authority, amount) {
            Ok(instruction) => Ok(instruction),
            Err(_) => Err(EscrowError::TransferFailed),
        }
    }
}

/// The outcome of making an instruction, with the instruction taken by
/// what it holds.
pub open spec fn view_result(r: Result<TransferInstruction, EscrowError>) -> Result<
    TransferInstructionView,
    EscrowError,
> {
    match r {
        Ok(instruction) => Ok(instruction@),
        Err(e) => Err(e),
    }
}

} // verus!
