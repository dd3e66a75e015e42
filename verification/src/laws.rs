//! What holds of every escrow, whatever commands it is given.

use vstd::prelude::*;
use vstd::bytes::spec_u64_to_le_bytes;
use crate::account::Account;
use crate::address::Address;
use crate::custody::VaultCustodian;
use crate::codec::lemma_u64_bytes;
use crate::errors::EscrowError;
use crate::guard::authorized;
use crate::instructions::EscrowInstruction;
use crate::processor::{deposit_outcome, is_fresh, process_spec, SettlementView};
use crate::record::{lemma_record_injective, lemma_record_shape};
use crate::state::{Escrow, EscrowStatus, Refunds, Role};

verus! {

/// The record that an account holds is the one whose bytes it holds.
pub proof fn lemma_decode_encoding(record: Escrow)
    ensures
        Escrow::decode_spec(record.encoding()) == Some(record),
{
    let chosen = choose|x: Escrow| x.encoding() == record.encoding();
    lemma_record_injective(chosen, record);
}

/// The bytes of a record with a positive amount are not those of an
/// account that nothing has been written to.
pub proof fn lemma_record_not_fresh(record: Escrow)
    requires
        record.amount_a > 0,
    ensures
        !is_fresh(record.encoding()),
{
    let bytes = record.encoding();
    lemma_record_shape(record);
    lemma_u64_bytes(record.amount_a, 0);
    let field = spec_u64_to_le_bytes(record.amount_a);
    assert(field =~= bytes.subrange(128, 136));
    if is_fresh(bytes) {
        vstd::bytes::spec_u64_to_le_bytes_to_open(0);
        let zero = spec_u64_to_le_bytes(0);
        assert(zero[0] == 0 && zero[1] == 0 && zero[2] == 0 && zero[3] == 0 && zero[4] == 0
            && zero[5] == 0 && zero[6] == 0 && zero[7] == 0) by {
            assert(0u64 & 0xff == 0 && (0u64 >> 8) & 0xff == 0 && (0u64 >> 16) & 0xff == 0 && (0u64
                >> 24) & 0xff == 0 && (0u64 >> 32) & 0xff == 0 && (0u64 >> 40) & 0xff == 0 && (0u64
                >> 48) & 0xff == 0 && (0u64 >> 56) & 0xff == 0) by (bit_vector);
        }
        assert forall|i: int| 0 <= i < 8 implies field[i] == zero[i] by {
            assert(field[i] == bytes[128 + i]);
        }
        assert(field =~= zero);
    }
}

/// No command changes the terms of an escrow: whatever command is given
/// to an account that holds a record, if it is accepted, the record
/// afterwards has the same first party, the same two assets, the same two
/// amounts and the same custodial authority.
pub proof fn law_terms_never_change(
    program_id: Address,
    accounts: Seq<Account>,
    data: Seq<u8>,
    record: Escrow,
)
    requires
        accounts.len() >= 2,
        accounts[1].data@ == record.encoding(),
        record.wf(),
    ensures
        process_spec(program_id, accounts, data) is Ok ==> process_spec(
            program_id,
            accounts,
            data,
        )->Ok_0.record.same_terms(&record),
{
    lemma_decode_encoding(record);
    lemma_record_not_fresh(record);
}

/// A side deposits at most once: after an accepted deposit the side's
/// flag is set, and whoever then tries to deposit on that side, with
/// whatever amount, is refused with `AlreadyDeposited`.
pub proof fn law_deposit_at_most_once(
    record: Escrow,
    who: Address,
    amount: u64,
    again: Address,
    other_amount: u64,
)
    requires
        record.deposit_spec(who, amount) is Ok,
    ensures
        ({
            let (next, role) = record.deposit_spec(who, amount)->Ok_0;
            &&& !record.deposited(role)
            &&& next.deposited(role)
            &&& next.deposit_role(who) == Some(role)
            &&& next.deposit_role(again) == Some(role) ==> next.deposit_spec(again, other_amount)
                == Err::<(Escrow, Role), EscrowError>(EscrowError::AlreadyDeposited)
        }),
{
}

/// In an active escrow, a deposit on a side that has already paid in is
/// refused with `AlreadyDeposited`.
pub proof fn law_second_deposit_refused(record: Escrow, who: Address, amount: u64, role: Role)
    requires
        record.status == EscrowStatus::Active,
        record.deposit_role(who) == Some(role),
        record.deposited(role),
    ensures
        record.deposit_spec(who, amount) == Err::<(Escrow, Role), EscrowError>(
            EscrowError::AlreadyDeposited,
        ),
{
}

/// A deposit of an amount other than the one that the side owes is
/// refused; with `InvalidAmount`, where the escrow is active and the side
/// has not paid in yet.
pub proof fn law_wrong_amount_refused(record: Escrow, who: Address, amount: u64, role: Role)
    requires
        record.deposit_role(who) == Some(role),
        amount != record.expected_amount(role),
    ensures
        record.deposit_spec(who, amount) is Err,
        record.status == EscrowStatus::Active && !record.deposited(role) ==> record.deposit_spec(
            who,
            amount,
        ) == Err::<(Escrow, Role), EscrowError>(EscrowError::InvalidAmount),
{
}

/// A deposit command that names an amount other than the one owed yields
/// no settlement: nothing is moved and nothing is written.
pub proof fn law_wrong_amount_moves_nothing(accounts: Seq<Account>, amount: u64, record: Escrow)
    requires
        accounts.len() >= 5,
        accounts[1].data@ == record.encoding(),
        record.deposit_role(accounts[0].key) is Some,
        amount != record.expected_amount(record.deposit_role(accounts[0].key)->Some_0),
    ensures
        deposit_outcome(accounts, amount) is Err,
        accounts[0].is_signer && record.status == EscrowStatus::Active && !record.deposited(
            record.deposit_role(accounts[0].key)->Some_0,
        ) ==> deposit_outcome(accounts, amount) == Err::<SettlementView, EscrowError>(
            EscrowError::InvalidAmount,
        ),
{
    lemma_decode_encoding(record);
}

/// A party's call for the swap is refused with `EscrowNotReady` unless
/// both sides have paid in; an accepted one completes the escrow and
/// changes nothing else.
pub proof fn law_swap_needs_both_deposits(record: Escrow, who: Address)
    requires
        record.is_party(who),
    ensures
        !(record.token_a_deposited && record.token_b_deposited) ==> record.complete_swap_spec(who)
            == Err::<Escrow, EscrowError>(EscrowError::EscrowNotReady),
        record.complete_swap_spec(who) is Ok ==> record.complete_swap_spec(who)->Ok_0 == (Escrow {
            status: EscrowStatus::Completed,
            ..record
        }),
{
}

/// A cancellation is refused with `UnauthorizedCancel` once both sides
/// have paid in. An accepted one hands back exactly the deposits that
/// were made, clears both flags and cancels the escrow.
pub proof fn law_cancel_refunds_what_was_paid(record: Escrow, who: Address)
    ensures
        record.token_a_deposited && record.token_b_deposited ==> record.cancel_spec(who) == Err::<
            (Escrow, Refunds),
            EscrowError,
        >(EscrowError::UnauthorizedCancel),
        record.cancel_spec(who) is Ok ==> ({
            let (next, refunds) = record.cancel_spec(who)->Ok_0;
            &&& refunds.to_a == record.token_a_deposited
            &&& refunds.to_b == record.token_b_deposited
            &&& !next.token_a_deposited
            &&& !next.token_b_deposited
            &&& next.status == EscrowStatus::Cancelled
        }),
{
}

/// Once an escrow is completed or cancelled, every deposit, swap and
/// cancellation is refused, by whomever and with whatever amount.
pub proof fn law_terminal_is_final(record: Escrow, who: Address, amount: u64)
    requires
        record.is_terminal(),
    ensures
        record.deposit_spec(who, amount) is Err,
        record.complete_swap_spec(who) is Err,
        record.cancel_spec(who) is Err,
{
}

/// Once the record that an account holds is completed or cancelled, every
/// command given to that account is refused: nothing is moved and the
/// account keeps its bytes.
pub proof fn law_terminal_refuses_every_command(
    program_id: Address,
    accounts: Seq<Account>,
    data: Seq<u8>,
    record: Escrow,
)
    requires
        accounts.len() >= 2,
        accounts[1].data@ == record.encoding(),
        record.is_terminal(),
        record.wf(),
    ensures
        process_spec(program_id, accounts, data) is Err,
{
    lemma_decode_encoding(record);
    lemma_record_not_fresh(record);
}

/// Only an authorized principal gets a command accepted: whenever a
/// command is accepted, its first account has signed and holds the part
/// that the command asks for in the record that the second account
/// holds.
pub proof fn law_accepted_commands_are_authorized(
    program_id: Address,
    accounts: Seq<Account>,
    data: Seq<u8>,
)
    requires
        process_spec(program_id, accounts, data) is Ok,
    ensures
        EscrowInstruction::decode_spec(data) is Some,
        accounts.len() >= 2,
        authorized(
            EscrowInstruction::decode_spec(data)->Some_0,
            accounts[0].key,
            accounts[0].is_signer,
            if EscrowInstruction::decode_spec(data)->Some_0 is InitEscrow {
                None
            } else {
                Escrow::decode_spec(accounts[1].data@)
            },
        ),
{
}

/// The custodial authority is derived and never stored as a secret: the
/// record that setting up an escrow writes names the authority derived
/// from the record's own identity, and a swap or a cancellation is made
/// on the word of that same authority.
pub proof fn law_vault_authority_is_derived(
    program_id: Address,
    accounts: Seq<Account>,
    data: Seq<u8>,
)
    requires
        process_spec(program_id, accounts, data) is Ok,
    ensures
        ({
            let settlement = process_spec(program_id, accounts, data)->Ok_0;
            let derived = VaultCustodian::derive_spec(program_id, accounts[1].key);
            match EscrowInstruction::decode_spec(data)->Some_0 {
                EscrowInstruction::InitEscrow { .. } => derived is Some
                    && settlement.record.vault_pda == derived->Some_0.authority
                    && settlement.signer is None,
                EscrowInstruction::Deposit { .. } => settlement.signer is None,
                EscrowInstruction::CompleteSwap => derived is Some && settlement.signer == derived,
                EscrowInstruction::Cancel => derived is Some && settlement.signer == derived,
            }
        }),
{
}

/// The status only moves forward: an accepted deposit leaves the escrow
/// active, and an accepted swap or cancellation ends it.
pub proof fn law_status_moves_forward(record: Escrow, who: Address, amount: u64)
    ensures
        record.deposit_spec(who, amount) is Ok ==> record.status == EscrowStatus::Active
            && record.deposit_spec(who, amount)->Ok_0.0.status == EscrowStatus::Active,
        record.complete_swap_spec(who) is Ok ==> record.status == EscrowStatus::Active
            && record.complete_swap_spec(who)->Ok_0.status == EscrowStatus::Completed,
        record.cancel_spec(who) is Ok ==> record.status == EscrowStatus::Active
            && record.cancel_spec(who)->Ok_0.0.status == EscrowStatus::Cancelled,
{
}

/// The second party is named at most once: an accepted deposit changes
/// it only while its place is free, and no swap or cancellation changes
/// it.
pub proof fn law_second_party_set_once(record: Escrow, who: Address, amount: u64)
    ensures
        record.deposit_spec(who, amount) is Ok && !record.user_b.is_unset()
            ==> record.deposit_spec(who, amount)->Ok_0.0.user_b == record.user_b,
        record.complete_swap_spec(who) is Ok ==> record.complete_swap_spec(who)->Ok_0.user_b
            == record.user_b,
        record.cancel_spec(who) is Ok ==> record.cancel_spec(who)->Ok_0.0.user_b == record.user_b,
{
}

} // verus!
