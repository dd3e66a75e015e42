//! Carrying out a command: from the command's bytes and the accounts it
//! names to the token movements to make and the record to write.
//!
//! Nothing is moved and nothing is written here. A command that is
//! accepted yields a `Settlement`; the caller makes its transfers in order
//! and then writes its bytes to the record's account, all or nothing. A
//! command that is refused yields the refusal alone.

use vstd::prelude::*;
use crate::account::Account;
use crate::address::Address;
use crate::custody::{TransferInstruction, TransferInstructionView, VaultCustodian};
use crate::errors::EscrowError;
use crate::guard::{authorize, authorized};
use crate::instructions::EscrowInstruction;
use crate::record::RECORD_LEN;
use crate::rent::{check_rent_exempt, check_rent_exempt_spec};
use crate::state::{Escrow, EscrowStatus, Refunds};

verus! {

/// What an accepted command leaves to be done.
#[derive(Clone, Debug, PartialEq, Eq)]
pub struct Settlement {
    /// The token movements to make, in order.
    pub transfers: Vec<TransferInstruction>,
    /// The custodial authority on whose word the movements are made, where
    /// they leave custody.
    pub signer: Option<VaultCustodian>,
    /// The record after the command.
    pub record: Escrow,
    /// The bytes that the record's account holds after the command.
    pub data: Vec<u8>,
}

/// What a `Settlement` holds.
pub ghost struct SettlementView {
    pub transfers: Seq<TransferInstructionView>,
    pub signer: Option<VaultCustodian>,
    pub record: Escrow,
    pub data: Seq<u8>,
}

impl View for Settlement {
    type V = SettlementView;

    open spec fn view(&self) -> SettlementView {
        SettlementView {
            transfers: Seq::new(self.transfers@.len(), |i: int| self.transfers@[i]@),
            signer: self.signer,
            record: self.record,
            data: self.data@,
        }
    }
}

impl Settlement {
    /// The bytes to write to the record's account once `completed` of the
    /// transfers have been made, or the refusal.
    pub open spec fn persist_spec(self, completed: usize) -> Result<Seq<u8>, EscrowError> {
        if completed == self.transfers@.len() {
            Ok(self.data@)
        } else {
            Err(EscrowError::TransferFailed)
        }
    }

    /// Hands out the bytes to write to the record's account, once every
    /// transfer has been made. While one is outstanding, which is where a
    /// rejected transfer leaves things, nothing is to be written: the
    /// refusal is `TransferFailed`.
    pub fn persist(self, completed: usize) -> (r: Result<Vec<u8>, EscrowError>)
        ensures
            match r {
                Ok(bytes) => self.persist_spec(completed) == Ok::<Seq<u8>, EscrowError>(bytes@),
                Err(e) => self.persist_spec(completed) == Err::<Seq<u8>, EscrowError>(e),
            },
    {
        if completed == self.transfers.len() {
            Ok(self.data)
        } else {
            Err(EscrowError::TransferFailed)
        }
    }
}

/// The outcome of a command, with the settlement taken by what it holds.
pub open spec fn view_outcome(r: Result<Settlement, EscrowError>) -> Result<
    SettlementView,
    EscrowError,
> {
    match r {
        Ok(settlement) => Ok(settlement@),
        Err(e) => Err(e),
    }
}

/// Whether an account's bytes are those of an account that nothing has
/// been written to: all zero.
pub open spec fn is_fresh(data: Seq<u8>) -> bool {
    forall|i: int| 0 <= i < data.len() ==> data[i] == 0u8
}

/// Whether nothing has been written to the bytes.
pub fn check_fresh(data: &[u8]) -> (b: bool)
    ensures
        b == is_fresh(data@),
{
    let mut i: usize = 0;
    while i < data.len()
        invariant
            i <= data.len(),
            forall|j: int| 0 <= j < i ==> data@[j] == 0u8,
        decreases data.len() - i,
    {
        if data[i] != 0 {
            return false;
        }
        i += 1;
    }
    true
}

/// The outcome of setting up an escrow. The accounts are, in order: the
/// first party, the record's account, the rent table.
pub open spec fn init_outcome(
    program_id: Address,
    accounts: Seq<Account>,
    token_a_mint: Address,
    token_b_mint: Address,
    amount_a: u64,
    amount_b: u64,
) -> Result<SettlementView, EscrowError> {
    if accounts.len() < 3 {
        Err(EscrowError::MalformedInstruction)
    } else if !authorized(
        EscrowInstruction::InitEscrow { token_a_mint, token_b_mint, amount_a, amount_b },
        accounts[0].key,
        accounts[0].is_signer,
        None,
    ) {
        Err(EscrowError::UnauthorizedCancel)
    } else if check_rent_exempt_spec(&accounts[1], &accounts[2]) is Err {
        Err(check_rent_exempt_spec(&accounts[1], &accounts[2])->Err_0)
    } else if accounts[1].owner != program_id {
        Err(EscrowError::IncorrectProgramId)
    } else if amount_a == 0 || amount_b == 0 {
        Err(EscrowError::InvalidAmount)
    } else if accounts[1].data@.len() < RECORD_LEN {
        Err(EscrowError::InvalidAccountData)
    } else if !is_fresh(accounts[1].data@) {
        Err(EscrowError::AlreadyInitialized)
    } else {
        match VaultCustodian::derive_spec(program_id, accounts[1].key) {
            None => Err(EscrowError::InvalidSeeds),
            Some(vault) => {
                let record = Escrow {
                    user_a: accounts[0].key,
                    user_b: Address::unset_spec(),
                    token_a_mint,
                    token_b_mint,
                    amount_a,
                    amount_b,
                    token_a_deposited: false,
                    token_b_deposited: false,
                    vault_pda: vault.authority,
                    status: EscrowStatus::Active,
                };
                Ok(
                    SettlementView {
                        transfers: Seq::empty(),
                        signer: None,
                        record,
                        data: record.encoding() + accounts[1].data@.subrange(
                            RECORD_LEN as int,
                            accounts[1].data@.len() as int,
                        ),
                    },
                )
            },
        }
    }
}

/// The outcome of a deposit. The accounts are, in order: the depositor,
/// the record's account, the depositor's token account, the vault's token
/// account, the token program.
pub open spec fn deposit_outcome(accounts: Seq<Account>, amount: u64) -> Result<
    SettlementView,
    EscrowError,
> {
    if accounts.len() < 5 {
        Err(EscrowError::MalformedInstruction)
    } else {
        match Escrow::decode_spec(accounts[1].data@) {
            None => Err(EscrowError::InvalidAccountData),
            Some(record) => {
                let deposited = record.deposit_spec(accounts[0].key, amount);
                let transfer = VaultCustodian::receive_spec(
                    accounts[4].key,
                    accounts[0].key,
                    accounts[2].key,
                    accounts[3].key,
                    amount,
                );
                if !authorized(
                    EscrowInstruction::Deposit { amount },
                    accounts[0].key,
                    accounts[0].is_signer,
                    Some(record),
                ) {
                    Err(EscrowError::UnauthorizedCancel)
                } else if deposited is Err {
                    Err(deposited->Err_0)
                } else if transfer is Err {
                    Err(transfer->Err_0)
                } else {
                    Ok(
                        SettlementView {
                            transfers: seq![transfer->Ok_0],
                            signer: None,
                            record: deposited->Ok_0.0,
                            data: deposited->Ok_0.0.encoding(),
                        },
                    )
                }
            },
        }
    }
}

/// The transfers of a swap: the first asset goes from the vault to the
/// second party, then the second asset from the vault to the first party.
pub open spec fn swap_transfers(vault: VaultCustodian, accounts: Seq<Account>, record: Escrow) -> Result<
    Seq<TransferInstructionView>,
    EscrowError,
> {
    let to_b = vault.release_spec(
        accounts[7].key,
        accounts[3].key,
        accounts[6].key,
        record.amount_a,
    );
    let to_a = vault.release_spec(
        accounts[7].key,
        accounts[4].key,
        accounts[5].key,
        record.amount_b,
    );
    if to_b is Err || to_a is Err {
        Err(EscrowError::TransferFailed)
    } else {
        Ok(seq![to_b->Ok_0, to_a->Ok_0])
    }
}

/// The transfers of a cancellation: each deposit that is to be handed
/// back goes from the vault to the party that made it, the first party's
/// first.
pub open spec fn refund_transfers(
    vault: VaultCustodian,
    accounts: Seq<Account>,
    record: Escrow,
    refunds: Refunds,
) -> Result<Seq<TransferInstructionView>, EscrowError> {
    let to_a = vault.release_spec(
        accounts[7].key,
        accounts[3].key,
        accounts[5].key,
        record.amount_a,
    );
    let to_b = vault.release_spec(
        accounts[7].key,
        accounts[4].key,
        accounts[6].key,
        record.amount_b,
    );
    if (refunds.to_a && to_a is Err) || (refunds.to_b && to_b is Err) {
        Err(EscrowError::TransferFailed)
    } else {
        Ok(
            (if refunds.to_a {
                seq![to_a->Ok_0]
            } else {
                Seq::empty()
            }) + (if refunds.to_b {
                seq![to_b->Ok_0]
            } else {
                Seq::empty()
            }),
        )
    }
}

/// The outcome of a swap. The accounts are, in order: the caller, the
/// record's account, the vault's authority, the vault's token account for
/// each of the two assets, the token account in which each of the two
/// parties is paid, the token program. Each party is paid the asset that
/// the other one deposited.
pub open spec fn complete_swap_outcome(program_id: Address, accounts: Seq<Account>) -> Result<
    SettlementView,
    EscrowError,
> {
    if accounts.len() < 8 {
        Err(EscrowError::MalformedInstruction)
    } else {
        match Escrow::decode_spec(accounts[1].data@) {
            None => Err(EscrowError::InvalidAccountData),
            Some(record) => {
                let swapped = record.complete_swap_spec(accounts[0].key);
                let vault = VaultCustodian::derive_spec(program_id, accounts[1].key);
                if !authorized(
                    EscrowInstruction::CompleteSwap,
                    accounts[0].key,
                    accounts[0].is_signer,
                    Some(record),
                ) {
                    Err(EscrowError::UnauthorizedCancel)
                } else if swapped is Err {
                    Err(swapped->Err_0)
                } else if vault is None {
                    Err(EscrowError::InvalidSeeds)
                } else {
                    match swap_transfers(vault->Some_0, accounts, record) {
                        Err(e) => Err(e),
                        Ok(transfers) => Ok(
                            SettlementView {
                                transfers,
                                signer: vault,
                                record: swapped->Ok_0,
                                data: swapped->Ok_0.encoding(),
                            },
                        ),
                    }
                }
            },
        }
    }
}

/// The outcome of a cancellation. The accounts are those of a swap, but
/// for the two parties' token accounts: each is the one from which that
/// party paid in. Each side that has paid in is paid back what it
/// deposited.
pub open spec fn cancel_outcome(program_id: Address, accounts: Seq<Account>) -> Result<
    SettlementView,
    EscrowError,
> {
    if accounts.len() < 8 {
        Err(EscrowError::MalformedInstruction)
    } else {
        match Escrow::decode_spec(accounts[1].data@) {
            None => Err(EscrowError::InvalidAccountData),
            Some(record) => {
                let cancelled = record.cancel_spec(accounts[0].key);
                let vault = VaultCustodian::derive_spec(program_id, accounts[1].key);
                if !authorized(
                    EscrowInstruction::Cancel,
                    accounts[0].key,
                    accounts[0].is_signer,
                    Some(record),
                ) {
                    Err(EscrowError::UnauthorizedCancel)
                } else if cancelled is Err {
                    Err(cancelled->Err_0)
                } else if vault is None {
                    Err(EscrowError::InvalidSeeds)
                } else {
                    match refund_transfers(vault->Some_0, accounts, record, cancelled->Ok_0.1) {
                        Err(e) => Err(e),
                        Ok(transfers) => Ok(
                            SettlementView {
                                transfers,
                                signer: vault,
                                record: cancelled->Ok_0.0,
                                data: cancelled->Ok_0.0.encoding(),
                            },
                        ),
                    }
                }
            },
        }
    }
}

/// The outcome of the command that `data` stands for, given under the
/// program `program_id` with the accounts `accounts`.
pub open spec fn process_spec(program_id: Address, accounts: Seq<Account>, data: Seq<u8>) -> Result<
    SettlementView,
    EscrowError,
> {
    match EscrowInstruction::decode_spec(data) {
        None => Err(EscrowError::MalformedInstruction),
        Some(EscrowInstruction::InitEscrow { token_a_mint, token_b_mint, amount_a, amount_b }) => {
            init_outcome(program_id, accounts, token_a_mint, token_b_mint, amount_a, amount_b)
        },
        Some(EscrowInstruction::Deposit { amount }) => deposit_outcome(accounts, amount),
        Some(EscrowInstruction::CompleteSwap) => complete_swap_outcome(program_id, accounts),
        Some(EscrowInstruction::Cancel) => cancel_outcome(program_id, accounts),
    }
}

/// Sets up an escrow in the record's account.
///
/// The first party must have signed (`UnauthorizedCancel`); the record's
/// account must be exempt from rent (see `check_rent_exempt`), belong to
/// this program (`IncorrectProgramId`), be large enough for a record
/// (`InvalidAccountData`) and never have been written to
/// (`AlreadyInitialized`); both amounts must be positive
/// (`InvalidAmount`). No tokens move.
pub fn process_init(
    program_id: &Address,
    accounts: &[Account],
    token_a_mint: Address,
    token_b_mint: Address,
    amount_a: u64,
    amount_b: u64,
) -> (r: Result<Settlement, EscrowError>)
    ensures
        view_outcome(r) == init_outcome(
            *program_id,
            accounts@,
            token_a_mint,
            token_b_mint,
            amount_a,
            amount_b,
        ),
        r is Ok ==> r->Ok_0.record.wf(),
{
    if accounts.len() < 3 {
        return Err(EscrowError::MalformedInstruction);
    }
    let user_a = &accounts[0];
    let slot = &accounts[1];
    let rent_account = &accounts[2];
    let instruction = EscrowInstruction::InitEscrow {
        token_a_mint,
        token_b_mint,
        amount_a,
        amount_b,
    };
    match authorize(&instruction, &user_a.key, user_a.is_signer, None) {
        Ok(()) => {},
        Err(e) => {
            return Err(e);
        },
    }
    match check_rent_exempt(slot, rent_account) {
        Ok(()) => {},
        Err(e) => {
            return Err(e);
        },
    }
    if slot.owner != *program_id {
        return Err(EscrowError::IncorrectProgramId);
    }
    if amount_a == 0 || amount_b == 0 {
        return Err(EscrowError::InvalidAmount);
    }
    if slot.data.len() < RECORD_LEN {
        return Err(EscrowError::InvalidAccountData);
    }
    if !check_fresh(slot.data.as_slice()) {
        return Err(EscrowError::AlreadyInitialized);
    }
    let vault = match VaultCustodian::derive(program_id, &slot.key) {
        Some(vault) => vault,
        None => {
            return Err(EscrowError::InvalidSeeds);
        },
    };
    let record = match Escrow::init(
        user_a.key,
        token_a_mint,
        token_b_mint,
        amount_a,
        amount_b,
        vault.authority,
    ) {
        Ok(record) => record,
        Err(e) => {
            return Err(e);
        },
    };
    let mut data = record.to_vec();
    let mut i: usize = RECORD_LEN;
    while i < slot.data.len()
        invariant
            RECORD_LEN <= i <= slot.data.len(),
            data@ == record.encoding() + slot.data@.subrange(RECORD_LEN as int, i as int),
        decreases slot.data.len() - i,
    {
        data.push(slot.data[i]);
        assert(slot.data@.subrange(RECORD_LEN as int, i + 1) =~= slot.data@.subrange(
            RECORD_LEN as int,
            i as int,
        ).push(slot.data@[i as int]));
        i += 1;
    }
    let settlement = Settlement { transfers: Vec::new(), signer: None, record, data };
    assert(settlement@.transfers =~= Seq::empty());
    Ok(settlement)
}

/// Takes a deposit of `amount` from the depositor.
///
/// The record's account must hold a record (`InvalidAccountData`) and the
/// depositor must have signed (`UnauthorizedCancel`); then the rules of
/// `Escrow::deposit` decide. An accepted deposit moves `amount` from the
/// depositor's token account into the vault's, on the depositor's word.
pub fn process_deposit(accounts: &[Account], amount: u64) -> (r: Result<Settlement, EscrowError>)
    ensures
        view_outcome(r) == deposit_outcome(accounts@, amount),
{
    if accounts.len() < 5 {
        return Err(EscrowError::MalformedInstruction);
    }
    let depositor = &accounts[0];
    let slot = &accounts[1];
    let source = &accounts[2];
    let vault_account = &accounts[3];
    let token_program = &accounts[4];
    let record = match Escrow::try_from_slice(slot.data.as_slice()) {
        Ok(record) => record,
        Err(e) => {
            return Err(e);
        },
    };
    let instruction = EscrowInstruction::Deposit { amount };
    match authorize(&instruction, &depositor.key, depositor.is_signer, Some(&record)) {
        Ok(()) => {},
        Err(e) => {
            return Err(e);
        },
    }
    let next = match record.deposit(&depositor.key, amount) {
        Ok((next, _)) => next,
        Err(e) => {
            return Err(e);
        },
    };
    let transfer = match VaultCustodian::receive(
        &token_program.key,
        &depositor.key,
        &source.key,
        &vault_account.key,
        amount,
    ) {
        Ok(transfer) => transfer,
        Err(e) => {
            return Err(e);
        },
    };
    let ghost moved = transfer@;
    let mut transfers: Vec<TransferInstruction> = Vec::new();
    transfers.push(transfer);
    let settlement = Settlement { transfers, signer: None, record: next, data: next.to_vec() };
    assert(settlement@.transfers =~= seq![moved]);
    Ok(settlement)
}

/// Exchanges the two deposits.
///
/// The caller must have signed (`UnauthorizedCancel`) and the record's
/// account must hold a record (`InvalidAccountData`); then the rules of
/// `Escrow::complete_swap` decide. An accepted swap moves, on the
/// custodial authority's word, the first asset from the vault to the
/// second party and the second asset from the vault to the first party.
pub fn process_complete_swap(program_id: &Address, accounts: &[Account]) -> (r: Result<
    Settlement,
    EscrowError,
>)
    ensures
        view_outcome(r) == complete_swap_outcome(*program_id, accounts@),
{
    if accounts.len() < 8 {
        return Err(EscrowError::MalformedInstruction);
    }
    let caller = &accounts[0];
    let slot = &accounts[1];
    let vault_token_a = &accounts[3];
    let vault_token_b = &accounts[4];
    let user_a_token = &accounts[5];
    let user_b_token = &accounts[6];
    let token_program = &accounts[7];
    let record = match Escrow::try_from_slice(slot.data.as_slice()) {
        Ok(record) => record,
        Err(e) => {
            return Err(e);
        },
    };
    match authorize(&EscrowInstruction::CompleteSwap, &caller.key, caller.is_signer, Some(&record)) {
        Ok(()) => {},
        Err(e) => {
            return Err(e);
        },
    }
    let next = match record.complete_swap(&caller.key) {
        Ok(next) => next,
        Err(e) => {
            return Err(e);
        },
    };
    let vault = match VaultCustodian::derive(program_id, &slot.key) {
        Some(vault) => vault,
        None => {
            return Err(EscrowError::InvalidSeeds);
        },
    };
    let to_b = match vault.release(
        &token_program.key,
        &vault_token_a.key,
        &user_b_token.key,
        record.amount_a,
    ) {
        Ok(transfer) => transfer,
        Err(e) => {
            return Err(e);
        },
    };
    let to_a = match vault.release(
        &token_program.key,
        &vault_token_b.key,
        &user_a_token.key,
        record.amount_b,
    ) {
        Ok(transfer) => transfer,
        Err(e) => {
            return Err(e);
        },
    };
    let ghost first = to_b@;
    let ghost second = to_a@;
    let mut transfers: Vec<TransferInstruction> = Vec::new();
    transfers.push(to_b);
    transfers.push(to_a);
    let settlement = Settlement {
        transfers,
        signer: Some(vault),
        record: next,
        data: next.to_vec(),
    };
    assert(settlement@.transfers =~= seq![first, second]);
    Ok(settlement)
}

/// Calls the swap off.
///
/// The caller must have signed (`UnauthorizedCancel`) and the record's
/// account must hold a record (`InvalidAccountData`); then the rules of
/// `Escrow::cancel` decide. An accepted cancellation moves, on the
/// custodial authority's word, each deposit that was made from the vault
/// back to the party that made it.
pub fn process_cancel(program_id: &Address, accounts: &[Account]) -> (r: Result<
    Settlement,
    EscrowError,
>)
    ensures
        view_outcome(r) == cancel_outcome(*program_id, accounts@),
{
    if accounts.len() < 8 {
        return Err(EscrowError::MalformedInstruction);
    }
    let caller = &accounts[0];
    let slot = &accounts[1];
    let vault_token_a = &accounts[3];
    let vault_token_b = &accounts[4];
    let user_a_token = &accounts[5];
    let user_b_token = &accounts[6];
    let token_program = &accounts[7];
    let record = match Escrow::try_from_slice(slot.data.as_slice()) {
        Ok(record) => record,
        Err(e) => {
            return Err(e);
        },
    };
    match authorize(&EscrowInstruction::Cancel, &caller.key, caller.is_signer, Some(&record)) {
        Ok(()) => {},
        Err(e) => {
            return Err(e);
        },
    }
    let (next, refunds) = match record.cancel(&caller.key) {
        Ok(done) => done,
        Err(e) => {
            return Err(e);
        },
    };
    let vault = match VaultCustodian::derive(program_id, &slot.key) {
        Some(vault) => vault,
        None => {
            return Err(EscrowError::InvalidSeeds);
        },
    };
    let mut transfers: Vec<TransferInstruction> = Vec::new();
    let ghost mut moved: Seq<TransferInstructionView> = Seq::empty();
    if refunds.to_a {
        match vault.release(
            &token_program.key,
            &vault_token_a.key,
            &user_a_token.key,
            record.amount_a,
        ) {
            Ok(transfer) => {
                proof {
                    moved = moved.push(transfer@);
                }
                transfers.push(transfer);
            },
            Err(e) => {
                return Err(e);
            },
        }
    }
    assert(moved.len() == transfers@.len());
    assert(forall|i: int| 0 <= i < moved.len() ==> moved[i] == transfers@[i]@);
    if refunds.to_b {
        match vault.release(
            &token_program.key,
            &vault_token_b.key,
            &user_b_token.key,
            record.amount_b,
        ) {
            Ok(transfer) => {
                proof {
                    moved = moved.push(transfer@);
                }
                transfers.push(transfer);
            },
            Err(e) => {
                return Err(e);
            },
        }
    }
    assert(moved.len() == transfers@.len());
    assert(forall|i: int| 0 <= i < moved.len() ==> moved[i] == transfers@[i]@);
    let settlement = Settlement {
        transfers,
        signer: Some(vault),
        record: next,
        data: next.to_vec(),
    };
    assert(settlement@.transfers =~= moved);
    assert(refund_transfers(vault, accounts@, record, refunds) is Ok);
    assert(refund_transfers(vault, accounts@, record, refunds)->Ok_0 =~= moved);
    Ok(settlement)
}

/// Carries out the command that `instruction_data` stands for.
///
/// Bytes that stand for no command are refused with
/// `MalformedInstruction`, and so is a list of accounts that is too short
/// for the command. Otherwise the command's own rules decide: see
/// `process_init`, `process_deposit`, `process_complete_swap` and
/// `process_cancel`.
pub fn process_instruction(program_id: &Address, accounts: &[Account], instruction_data: &[u8]) -> (r:
    Result<Settlement, EscrowError>)
    ensures
        view_outcome(r) == process_spec(*program_id, accounts@, instruction_data@),
{
    let instruction = match EscrowInstruction::try_from_slice(instruction_data) {
        Ok(instruction) => instruction,
        Err(e) => {
            return Err(e);
        },
    };
    match instruction {
        EscrowInstruction::InitEscrow { token_a_mint, token_b_mint, amount_a, amount_b } => {
            process_init(program_id, accounts, token_a_mint, token_b_mint, amount_a, amount_b)
        },
        EscrowInstruction::Deposit { amount } => process_deposit(accounts, amount),
        EscrowInstruction::CompleteSwap => process_complete_swap(program_id, accounts),
        EscrowInstruction::Cancel => process_cancel(program_id, accounts),
    }
}

} // verus!
