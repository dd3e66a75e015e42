//! What the transfers of a settlement do to the balances of the token
//! accounts they name, and what follows for the vault.

use vstd::prelude::*;
use vstd::bytes::{spec_u64_from_le_bytes, spec_u64_to_le_bytes};
use crate::account::Account;
use crate::address::Address;
use crate::custody::{transfer_spec, TransferInstructionView};
use crate::laws::lemma_decode_encoding;
use crate::processor::{cancel_outcome, complete_swap_outcome, deposit_outcome};
use crate::state::{Escrow, EscrowStatus};

verus! {

/// The token account that a transfer takes from.
pub open spec fn transfer_source(t: TransferInstructionView) -> Address {
    t.accounts[0].pubkey
}

/// The token account that a transfer pays into.
pub open spec fn transfer_destination(t: TransferInstructionView) -> Address {
    t.accounts[1].pubkey
}

/// The number of tokens that a transfer moves.
pub open spec fn transfer_amount(t: TransferInstructionView) -> u64 {
    spec_u64_from_le_bytes(t.data.subrange(1, 9))
}

/// The balances after a transfer, or nothing where the transfer is
/// rejected: an account that is not known, or a balance that is too small.
pub open spec fn apply_transfer(balances: Map<Address, nat>, t: TransferInstructionView) -> Option<
    Map<Address, nat>,
> {
    let from = transfer_source(t);
    let to = transfer_destination(t);
    let amount = transfer_amount(t) as nat;
    if !balances.dom().contains(from) || !balances.dom().contains(to) || balances[from] < amount {
        None
    } else if from == to {
        Some(balances)
    } else {
        Some(balances.insert(from, (balances[from] - amount) as nat).insert(to, balances[to] + amount))
    }
}

/// The balances after a run of transfers made in order, or nothing where
/// one of them is rejected.
pub open spec fn apply_transfers(balances: Map<Address, nat>, transfers: Seq<TransferInstructionView>) -> Option<
    Map<Address, nat>,
>
    decreases transfers.len(),
{
    if transfers.len() == 0 {
        Some(balances)
    } else {
        match apply_transfer(balances, transfers[0]) {
            None => None,
            Some(next) => apply_transfers(next, transfers.subrange(1, transfers.len() as int)),
        }
    }
}

/// A transfer instruction names its source and its destination and
/// carries its amount.
pub proof fn lemma_transfer_reads_back(
    token_program: Address,
    source: Address,
    destination: Address,
    authority: Address,
    amount: u64,
)
    ensures
        transfer_source(transfer_spec(token_program, source, destination, authority, amount))
            == source,
        transfer_destination(transfer_spec(token_program, source, destination, authority, amount))
            == destination,
        transfer_amount(transfer_spec(token_program, source, destination, authority, amount))
            == amount,
{
    let t = transfer_spec(token_program, source, destination, authority, amount);
    vstd::bytes::lemma_auto_spec_u64_to_from_le_bytes();
    assert(t.data.subrange(1, 9) =~= spec_u64_to_le_bytes(amount));
}

/// An accepted deposit moves exactly the amount that the side owes from
/// the depositor's token account into the vault's, and sets that side's
/// flag.
pub proof fn law_deposit_fills_vault(
    accounts: Seq<Account>,
    amount: u64,
    record: Escrow,
    balances: Map<Address, nat>,
)
    requires
        accounts.len() >= 5,
        accounts[1].data@ == record.encoding(),
        deposit_outcome(accounts, amount) is Ok,
        accounts[2].key != accounts[3].key,
        balances.dom().contains(accounts[2].key),
        balances.dom().contains(accounts[3].key),
        balances[accounts[2].key] >= amount,
    ensures
        ({
            let settlement = deposit_outcome(accounts, amount)->Ok_0;
            let role = record.deposit_role(accounts[0].key)->Some_0;
            let after = apply_transfers(balances, settlement.transfers);
            &&& amount == record.expected_amount(role)
            &&& settlement.record.deposited(role)
            &&& after is Some
            &&& after->Some_0[accounts[3].key] == balances[accounts[3].key] + amount
            &&& after->Some_0[accounts[2].key] == balances[accounts[2].key] - amount
        }),
{
    lemma_decode_encoding(record);
    let settlement = deposit_outcome(accounts, amount)->Ok_0;
    lemma_transfer_reads_back(
        accounts[4].key,
        accounts[2].key,
        accounts[3].key,
        accounts[0].key,
        amount,
    );
    let t = settlement.transfers[0];
    let mid = apply_transfer(balances, t)->Some_0;
    assert(settlement.transfers.subrange(1, 1).len() == 0);
    assert(apply_transfers(mid, settlement.transfers.subrange(1, 1)) == Some(mid));
}

/// An accepted swap completes the escrow and empties the vault: where
/// the vault's two token accounts hold the two deposits, they hold
/// nothing afterwards, the second party's token account has grown by the
/// first party's deposit and the first party's by the second party's.
pub proof fn law_swap_empties_vault(
    program_id: Address,
    accounts: Seq<Account>,
    record: Escrow,
    balances: Map<Address, nat>,
)
    requires
        accounts.len() >= 8,
        accounts[1].data@ == record.encoding(),
        complete_swap_outcome(program_id, accounts) is Ok,
        accounts[3].key != accounts[4].key,
        accounts[3].key != accounts[5].key,
        accounts[3].key != accounts[6].key,
        accounts[4].key != accounts[5].key,
        accounts[4].key != accounts[6].key,
        accounts[5].key != accounts[6].key,
        balances.dom().contains(accounts[3].key),
        balances.dom().contains(accounts[4].key),
        balances.dom().contains(accounts[5].key),
        balances.dom().contains(accounts[6].key),
        balances[accounts[3].key] == record.amount_a,
        balances[accounts[4].key] == record.amount_b,
    ensures
        ({
            let settlement = complete_swap_outcome(program_id, accounts)->Ok_0;
            let after = apply_transfers(balances, settlement.transfers);
            &&& record.token_a_deposited && record.token_b_deposited
            &&& settlement.record.status == EscrowStatus::Completed
            &&& after is Some
            &&& after->Some_0[accounts[3].key] == 0
            &&& after->Some_0[accounts[4].key] == 0
            &&& after->Some_0[accounts[6].key] == balances[accounts[6].key] + record.amount_a
            &&& after->Some_0[accounts[5].key] == balances[accounts[5].key] + record.amount_b
        }),
{
    lemma_decode_encoding(record);
    let settlement = complete_swap_outcome(program_id, accounts)->Ok_0;
    let vault = settlement.signer->Some_0;
    lemma_transfer_reads_back(
        accounts[7].key,
        accounts[3].key,
        accounts[6].key,
        vault.authority,
        record.amount_a,
    );
    lemma_transfer_reads_back(
        accounts[7].key,
        accounts[4].key,
        accounts[5].key,
        vault.authority,
        record.amount_b,
    );
    let first = settlement.transfers[0];
    let second = settlement.transfers[1];
    let mid = apply_transfer(balances, first)->Some_0;
    let rest = settlement.transfers.subrange(1, 2);
    assert(rest[0] == second);
    let end = apply_transfer(mid, second)->Some_0;
    assert(rest.subrange(1, 1).len() == 0);
    assert(apply_transfers(end, rest.subrange(1, 1)) == Some(end));
    assert(apply_transfers(mid, rest) == Some(end));
}

/// An accepted cancellation cancels the escrow, clears both flags and
/// hands back what was paid in: where the vault's token account of a
/// side that has paid holds that deposit, it holds nothing afterwards
/// and that side's token account has grown by the deposit; the accounts
/// of a side that has not paid keep their balances.
pub proof fn law_cancel_refunds_deposits(
    program_id: Address,
    accounts: Seq<Account>,
    record: Escrow,
    balances: Map<Address, nat>,
)
    requires
        accounts.len() >= 8,
        accounts[1].data@ == record.encoding(),
        cancel_outcome(program_id, accounts) is Ok,
        accounts[3].key != accounts[4].key,
        accounts[3].key != accounts[5].key,
        accounts[3].key != accounts[6].key,
        accounts[4].key != accounts[5].key,
        accounts[4].key != accounts[6].key,
        accounts[5].key != accounts[6].key,
        balances.dom().contains(accounts[3].key),
        balances.dom().contains(accounts[4].key),
        balances.dom().contains(accounts[5].key),
        balances.dom().contains(accounts[6].key),
        record.token_a_deposited ==> balances[accounts[3].key] == record.amount_a,
        record.token_b_deposited ==> balances[accounts[4].key] == record.amount_b,
    ensures
        ({
            let settlement = cancel_outcome(program_id, accounts)->Ok_0;
            let after = apply_transfers(balances, settlement.transfers);
            let paid_a: nat = if record.token_a_deposited {
                record.amount_a as nat
            } else {
                0
            };
            let paid_b: nat = if record.token_b_deposited {
                record.amount_b as nat
            } else {
                0
            };
            &&& settlement.record.status == EscrowStatus::Cancelled
            &&& !settlement.record.token_a_deposited
            &&& !settlement.record.token_b_deposited
            &&& after is Some
            &&& after->Some_0[accounts[3].key] == balances[accounts[3].key] - paid_a
            &&& after->Some_0[accounts[4].key] == balances[accounts[4].key] - paid_b
            &&& after->Some_0[accounts[5].key] == balances[accounts[5].key] + paid_a
            &&& after->Some_0[accounts[6].key] == balances[accounts[6].key] + paid_b
        }),
{
    lemma_decode_encoding(record);
    let settlement = cancel_outcome(program_id, accounts)->Ok_0;
    let vault = settlement.signer->Some_0;
    lemma_transfer_reads_back(
        accounts[7].key,
        accounts[3].key,
        accounts[5].key,
        vault.authority,
        record.amount_a,
    );
    lemma_transfer_reads_back(
        accounts[7].key,
        accounts[4].key,
        accounts[6].key,
        vault.authority,
        record.amount_b,
    );
    let ts = settlement.transfers;
    if ts.len() == 1 {
        let mid = apply_transfer(balances, ts[0])->Some_0;
        assert(ts.subrange(1, 1).len() == 0);
        assert(apply_transfers(mid, ts.subrange(1, 1)) == Some(mid));
    }
}

} // verus!
