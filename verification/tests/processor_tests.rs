use std::collections::HashMap;

use solana_escrow::account::Account;
use solana_escrow::address::Address;
use solana_escrow::custody::{TransferInstruction, VaultCustodian};
use solana_escrow::errors::EscrowError;
use solana_escrow::instructions::EscrowInstruction;
use solana_escrow::processor::{process_instruction, Settlement};
use solana_escrow::{Escrow, EscrowStatus};

fn key(n: u8) -> Address {
    Address { bytes: [n; 32] }
}

fn program_id() -> Address {
    key(200)
}

fn token_program() -> Address {
    Address { bytes: spl_token::id().to_bytes() }
}

fn plain(k: Address) -> Account {
    Account { key: k, owner: key(0), is_signer: false, lamports: 0, data: Vec::new() }
}

fn signer(k: Address) -> Account {
    Account { is_signer: true, ..plain(k) }
}

fn rent_table() -> Account {
    let mut data = Vec::new();
    data.extend_from_slice(&3480u64.to_le_bytes());
    data.extend_from_slice(&2.0f64.to_le_bytes());
    data.push(50);
    Account {
        key: Address { bytes: solana_program::sysvar::rent::id().to_bytes() },
        owner: key(0),
        is_signer: false,
        lamports: 1,
        data,
    }
}

fn empty_slot(k: Address) -> Account {
    Account {
        key: k,
        owner: program_id(),
        is_signer: false,
        lamports: 2_136_720,
        data: vec![0u8; 179],
    }
}

/// Token balances by token account, and the record's account: what a
/// command would change once it is carried out.
struct World {
    balances: HashMap<[u8; 32], u64>,
    slot: Account,
}

impl World {
    fn new(slot: Account) -> World {
        World { balances: HashMap::new(), slot }
    }

    fn balance(&self, account: Address) -> u64 {
        *self.balances.get(&account.bytes).unwrap_or(&0)
    }

    fn transfer(&mut self, ix: &TransferInstruction) -> bool {
        assert_eq!(ix.program_id, token_program());
        assert_eq!(ix.data.len(), 9);
        assert_eq!(ix.data[0], 3);
        let mut amount = [0u8; 8];
        amount.copy_from_slice(&ix.data[1..9]);
        let amount = u64::from_le_bytes(amount);
        let from = ix.accounts[0].pubkey;
        let to = ix.accounts[1].pubkey;
        if self.balance(from) < amount {
            return false;
        }
        *self.balances.entry(from.bytes).or_insert(0) -= amount;
        *self.balances.entry(to.bytes).or_insert(0) += amount;
        true
    }

    /// Makes the transfers in order and, if all were made, writes the
    /// record; else restores the balances.
    fn carry_out(&mut self, settlement: Settlement) -> Result<(), EscrowError> {
        let before = self.balances.clone();
        let mut made = 0;
        for ix in settlement.transfers.iter() {
            if !self.transfer(ix) {
                break;
            }
            made += 1;
        }
        match settlement.persist(made) {
            Ok(data) => {
                self.slot.data = data;
                Ok(())
            }
            Err(e) => {
                self.balances = before;
                Err(e)
            }
        }
    }

    fn run(&mut self, accounts: &[Account], ix: EscrowInstruction) -> Result<(), EscrowError> {
        let settlement = process_instruction(&program_id(), accounts, &ix.to_vec())?;
        self.carry_out(settlement)
    }

    fn record(&self) -> Escrow {
        Escrow::try_from_slice(&self.slot.data).unwrap()
    }
}

// The cast of every scenario.
const USER_A: u8 = 1;
const USER_B: u8 = 2;
const STRANGER: u8 = 3;
const SLOT: u8 = 10;
const MINT_A: u8 = 20;
const MINT_B: u8 = 21;
const A_TOKEN_A: u8 = 30; // the first party's account of the first asset
const A_TOKEN_B: u8 = 31;
const B_TOKEN_A: u8 = 32;
const B_TOKEN_B: u8 = 33;
const VAULT_A: u8 = 40;
const VAULT_B: u8 = 41;
const VAULT_AUTHORITY: u8 = 42;

fn init_accounts(world: &World, user: Account) -> Vec<Account> {
    vec![user, world.slot.clone(), rent_table()]
}

fn deposit_accounts(world: &World, who: Account, source: u8, vault: u8) -> Vec<Account> {
    vec![who, world.slot.clone(), plain(key(source)), plain(key(vault)), plain(token_program())]
}

fn swap_accounts(world: &World, caller: Account) -> Vec<Account> {
    vec![
        caller,
        world.slot.clone(),
        plain(key(VAULT_AUTHORITY)),
        plain(key(VAULT_A)),
        plain(key(VAULT_B)),
        plain(key(A_TOKEN_B)),
        plain(key(B_TOKEN_A)),
        plain(token_program()),
    ]
}

fn cancel_accounts(world: &World, caller: Account) -> Vec<Account> {
    vec![
        caller,
        world.slot.clone(),
        plain(key(VAULT_AUTHORITY)),
        plain(key(VAULT_A)),
        plain(key(VAULT_B)),
        plain(key(A_TOKEN_A)),
        plain(key(B_TOKEN_B)),
        plain(token_program()),
    ]
}

fn init(world: &mut World, amount_a: u64, amount_b: u64) -> Result<(), EscrowError> {
    let accounts = init_accounts(world, signer(key(USER_A)));
    world.run(
        &accounts,
        EscrowInstruction::InitEscrow {
            token_a_mint: key(MINT_A),
            token_b_mint: key(MINT_B),
            amount_a,
            amount_b,
        },
    )
}

fn deposit_a(world: &mut World, amount: u64) -> Result<(), EscrowError> {
    let accounts = deposit_accounts(world, signer(key(USER_A)), A_TOKEN_A, VAULT_A);
    world.run(&accounts, EscrowInstruction::Deposit { amount })
}

fn deposit_b(world: &mut World, amount: u64) -> Result<(), EscrowError> {
    let accounts = deposit_accounts(world, signer(key(USER_B)), B_TOKEN_B, VAULT_B);
    world.run(&accounts, EscrowInstruction::Deposit { amount })
}

fn funded_world(amount_a: u64, amount_b: u64) -> World {
    let mut world = World::new(empty_slot(key(SLOT)));
    world.balances.insert(key(A_TOKEN_A).bytes, amount_a);
    world.balances.insert(key(B_TOKEN_B).bytes, amount_b);
    init(&mut world, amount_a, amount_b).unwrap();
    world
}

#[test]
fn test_escrow_initialization() {
    let mut world = World::new(empty_slot(key(SLOT)));
    init(&mut world, 1000, 2000).unwrap();
    let escrow = world.record();
    assert_eq!(escrow.user_a, key(USER_A));
    assert_eq!(escrow.token_a_mint, key(MINT_A));
    assert_eq!(escrow.amount_a, 1000);
    assert!(matches!(escrow.status, EscrowStatus::Active));
}

#[test]
fn init_writes_the_whole_record() {
    let mut world = World::new(empty_slot(key(SLOT)));
    init(&mut world, 1000, 2000).unwrap();
    let vault = VaultCustodian::derive(&program_id(), &key(SLOT)).unwrap();
    assert_eq!(
        world.record(),
        Escrow {
            user_a: key(USER_A),
            user_b: Address::unset(),
            token_a_mint: key(MINT_A),
            token_b_mint: key(MINT_B),
            amount_a: 1000,
            amount_b: 2000,
            token_a_deposited: false,
            token_b_deposited: false,
            vault_pda: vault.authority,
            status: EscrowStatus::Active,
        }
    );
    assert!(world.balances.is_empty());
}

#[test]
fn init_moves_nothing_and_names_no_signer() {
    let world = World::new(empty_slot(key(SLOT)));
    let ix = EscrowInstruction::InitEscrow {
        token_a_mint: key(MINT_A),
        token_b_mint: key(MINT_B),
        amount_a: 1000,
        amount_b: 2000,
    };
    let settlement =
        process_instruction(&program_id(), &init_accounts(&world, signer(key(USER_A))), &ix.to_vec())
            .unwrap();
    assert!(settlement.transfers.is_empty());
    assert_eq!(settlement.signer, None);
    assert_eq!(settlement.data, settlement.record.to_vec());
}

#[test]
fn init_keeps_the_tail_of_a_larger_account() {
    let mut slot = empty_slot(key(SLOT));
    slot.data = vec![0u8; 200];
    slot.lamports = 10_000_000;
    let mut world = World::new(slot);
    init(&mut world, 1000, 2000).unwrap();
    assert_eq!(world.slot.data.len(), 200);
    assert_eq!(&world.slot.data[179..], &[0u8; 21]);
    assert!(Escrow::try_from_slice(&world.slot.data[..179]).is_ok());
    assert_eq!(deposit_a(&mut world, 1000), Err(EscrowError::InvalidAccountData));
}

#[test]
fn init_refusals() {
    let world = World::new(empty_slot(key(SLOT)));
    let ix = EscrowInstruction::InitEscrow {
        token_a_mint: key(MINT_A),
        token_b_mint: key(MINT_B),
        amount_a: 1000,
        amount_b: 2000,
    }
    .to_vec();
    let good = init_accounts(&world, signer(key(USER_A)));
    assert!(process_instruction(&program_id(), &good, &ix).is_ok());

    let refusal = |accounts: &[Account], data: &[u8]| {
        process_instruction(&program_id(), accounts, data).unwrap_err()
    };
    assert_eq!(refusal(&good[..2], &ix), EscrowError::MalformedInstruction);

    let mut unsigned = good.clone();
    unsigned[0].is_signer = false;
    assert_eq!(refusal(&unsigned, &ix), EscrowError::UnauthorizedCancel);

    let mut poor = good.clone();
    poor[1].lamports = 2_136_719;
    assert_eq!(refusal(&poor, &ix), EscrowError::AccountNotRentExempt);

    let mut no_table = good.clone();
    no_table[2].key = key(99);
    assert_eq!(refusal(&no_table, &ix), EscrowError::InvalidArgument);

    let mut short_table = good.clone();
    short_table[2].data.truncate(16);
    assert_eq!(refusal(&short_table, &ix), EscrowError::InvalidArgument);

    let mut foreign = good.clone();
    foreign[1].owner = key(99);
    assert_eq!(refusal(&foreign, &ix), EscrowError::IncorrectProgramId);

    let zero = EscrowInstruction::InitEscrow {
        token_a_mint: key(MINT_A),
        token_b_mint: key(MINT_B),
        amount_a: 0,
        amount_b: 2000,
    }
    .to_vec();
    assert_eq!(refusal(&good, &zero), EscrowError::InvalidAmount);

    let mut small = good.clone();
    small[1].data = vec![0u8; 178];
    small[1].lamports = 10_000_000;
    assert_eq!(refusal(&small, &ix), EscrowError::InvalidAccountData);

    let mut used = good.clone();
    used[1].data[100] = 1;
    assert_eq!(refusal(&used, &ix), EscrowError::AlreadyInitialized);
}

#[test]
fn init_cannot_overwrite_a_record() {
    let mut world = funded_world(1000, 2000);
    let before = world.slot.data.clone();
    assert_eq!(init(&mut world, 5, 6), Err(EscrowError::AlreadyInitialized));
    assert_eq!(world.slot.data, before);
}

#[test]
fn rent_table_with_overflowing_price_is_refused() {
    let world = World::new(empty_slot(key(SLOT)));
    let ix = EscrowInstruction::InitEscrow {
        token_a_mint: key(MINT_A),
        token_b_mint: key(MINT_B),
        amount_a: 1000,
        amount_b: 2000,
    }
    .to_vec();
    let mut accounts = init_accounts(&world, signer(key(USER_A)));
    accounts[2].data[..8].copy_from_slice(&u64::MAX.to_le_bytes());
    assert_eq!(
        process_instruction(&program_id(), &accounts, &ix),
        Err(EscrowError::InvalidArgument)
    );
}

#[test]
fn malformed_command_is_refused() {
    let world = funded_world(1000, 2000);
    let accounts = swap_accounts(&world, signer(key(USER_A)));
    for data in [&[][..], &[9][..], &[2, 0][..], &[1, 1, 2][..]] {
        assert_eq!(
            process_instruction(&program_id(), &accounts, data),
            Err(EscrowError::MalformedInstruction)
        );
    }
}

#[test]
fn test_deposit_tokens() {
    let amount_a = 1000;
    let amount_b = 2000;
    let mut world = World::new(empty_slot(key(SLOT)));
    world.balances.insert(key(A_TOKEN_A).bytes, amount_a);
    world.balances.insert(key(B_TOKEN_B).bytes, amount_b);
    init(&mut world, amount_a, amount_b).unwrap();

    let escrow = world.record();
    assert_eq!(escrow.user_a, key(USER_A));
    assert_eq!(escrow.token_a_mint, key(MINT_A));
    assert_eq!(escrow.amount_a, amount_a);
    assert_eq!(world.balance(key(A_TOKEN_A)), amount_a);
    assert_eq!(world.balance(key(B_TOKEN_B)), amount_b);

    deposit_a(&mut world, amount_a).unwrap();
    assert_eq!(world.record().token_a_deposited, true);
    assert_eq!(world.balance(key(VAULT_A)), amount_a);

    deposit_b(&mut world, amount_b).unwrap();
    assert_eq!(world.record().token_b_deposited, true);
    assert_eq!(world.record().user_b, key(USER_B));
    assert_eq!(world.balance(key(VAULT_B)), amount_b);

    let accounts = swap_accounts(&world, signer(key(USER_A)));
    world.run(&accounts, EscrowInstruction::CompleteSwap).unwrap();
    assert_eq!(world.balance(key(A_TOKEN_A)), 0);
    assert_eq!(world.balance(key(A_TOKEN_B)), amount_b);
    assert_eq!(world.balance(key(B_TOKEN_B)), 0);
    assert_eq!(world.balance(key(B_TOKEN_A)), amount_a);
    assert_eq!(world.balance(key(VAULT_A)), 0);
    assert_eq!(world.balance(key(VAULT_B)), 0);
    assert_eq!(world.record().status, EscrowStatus::Completed);

    let mut cancel_world = World::new(empty_slot(key(SLOT + 1)));
    cancel_world.balances.insert(key(A_TOKEN_A).bytes, 500);
    init(&mut cancel_world, 500, 1000).unwrap();
    let cancel_escrow = cancel_world.record();
    assert_eq!(cancel_escrow.user_a, key(USER_A));
    assert_eq!(cancel_escrow.amount_a, 500);
    assert_eq!(cancel_world.balance(key(A_TOKEN_A)), 500);

    deposit_a(&mut cancel_world, 500).unwrap();
    assert_eq!(cancel_world.record().token_a_deposited, true);
    assert_eq!(cancel_world.record().token_b_deposited, false);
    assert_eq!(cancel_world.balance(key(A_TOKEN_A)), 0);

    let accounts = cancel_accounts(&cancel_world, signer(key(USER_A)));
    cancel_world.run(&accounts, EscrowInstruction::Cancel).unwrap();
    assert_eq!(cancel_world.balance(key(A_TOKEN_A)), 500);
    assert_eq!(cancel_world.balance(key(VAULT_A)), 0);
    assert_eq!(cancel_world.record().status, EscrowStatus::Cancelled);
    assert_eq!(cancel_world.record().token_a_deposited, false);
}

#[test]
fn deposit_is_signed_by_the_depositor() {
    let world = funded_world(1000, 2000);
    let accounts = deposit_accounts(&world, signer(key(USER_A)), A_TOKEN_A, VAULT_A);
    let ix = EscrowInstruction::Deposit { amount: 1000 }.to_vec();
    let settlement = process_instruction(&program_id(), &accounts, &ix).unwrap();
    assert_eq!(settlement.signer, None);
    assert_eq!(
        settlement.transfers,
        vec![VaultCustodian::receive(
            &token_program(),
            &key(USER_A),
            &key(A_TOKEN_A),
            &key(VAULT_A),
            1000
        )
        .unwrap()]
    );
    assert_eq!(settlement.transfers[0].accounts[2].pubkey, key(USER_A));
    assert!(settlement.transfers[0].accounts[2].is_signer);
    assert_eq!(settlement.data, settlement.record.to_vec());
    assert!(settlement.record.token_a_deposited);
}

#[test]
fn deposit_refusals() {
    let mut world = funded_world(1000, 2000);
    let ix = EscrowInstruction::Deposit { amount: 1000 }.to_vec();
    let good = deposit_accounts(&world, signer(key(USER_A)), A_TOKEN_A, VAULT_A);
    let refusal = |accounts: &[Account], data: &[u8]| {
        process_instruction(&program_id(), accounts, data).unwrap_err()
    };
    assert_eq!(refusal(&good[..4], &ix), EscrowError::MalformedInstruction);

    let mut unsigned = good.clone();
    unsigned[0].is_signer = false;
    assert_eq!(refusal(&unsigned, &ix), EscrowError::UnauthorizedCancel);

    let mut no_record = good.clone();
    no_record[1].data = vec![0u8; 10];
    assert_eq!(refusal(&no_record, &ix), EscrowError::InvalidAccountData);

    let mut other_program = good.clone();
    other_program[4].key = key(99);
    assert_eq!(refusal(&other_program, &ix), EscrowError::TransferFailed);

    let wrong = EscrowInstruction::Deposit { amount: 999 }.to_vec();
    assert_eq!(refusal(&good, &wrong), EscrowError::InvalidAmount);

    deposit_a(&mut world, 1000).unwrap();
    assert_eq!(deposit_a(&mut world, 1000), Err(EscrowError::AlreadyDeposited));
    deposit_b(&mut world, 2000).unwrap();
    let stranger = deposit_accounts(&world, signer(key(STRANGER)), B_TOKEN_B, VAULT_B);
    let two = EscrowInstruction::Deposit { amount: 2000 }.to_vec();
    assert_eq!(refusal(&stranger, &two), EscrowError::UnauthorizedCancel);
}

#[test]
fn wrong_amount_changes_nothing() {
    let mut world = funded_world(1000, 2000);
    let before = world.slot.data.clone();
    assert_eq!(deposit_a(&mut world, 999), Err(EscrowError::InvalidAmount));
    assert_eq!(world.slot.data, before);
    assert_eq!(world.record().token_a_deposited, false);
    assert_eq!(world.balance(key(A_TOKEN_A)), 1000);
    assert_eq!(world.balance(key(VAULT_A)), 0);
}

#[test]
fn rejected_transfer_changes_nothing() {
    let mut world = funded_world(1000, 2000);
    world.balances.insert(key(A_TOKEN_A).bytes, 400);
    let before = world.slot.data.clone();
    assert_eq!(deposit_a(&mut world, 1000), Err(EscrowError::TransferFailed));
    assert_eq!(world.slot.data, before);
    assert_eq!(world.balance(key(A_TOKEN_A)), 400);
    assert_eq!(world.balance(key(VAULT_A)), 0);
}

#[test]
fn swap_pays_each_party_the_other_deposit() {
    let mut world = funded_world(1000, 2000);
    deposit_a(&mut world, 1000).unwrap();
    deposit_b(&mut world, 2000).unwrap();
    let accounts = swap_accounts(&world, signer(key(USER_B)));
    let settlement =
        process_instruction(&program_id(), &accounts, &EscrowInstruction::CompleteSwap.to_vec())
            .unwrap();
    let vault = VaultCustodian::derive(&program_id(), &key(SLOT)).unwrap();
    assert_eq!(settlement.signer, Some(vault));
    assert_eq!(vault.authority, world.record().vault_pda);
    assert_eq!(
        settlement.transfers,
        vec![
            vault.release(&token_program(), &key(VAULT_A), &key(B_TOKEN_A), 1000).unwrap(),
            vault.release(&token_program(), &key(VAULT_B), &key(A_TOKEN_B), 2000).unwrap(),
        ]
    );
    assert_eq!(settlement.record.status, EscrowStatus::Completed);
    world.carry_out(settlement).unwrap();
    assert_eq!(world.balance(key(B_TOKEN_A)), 1000);
    assert_eq!(world.balance(key(A_TOKEN_B)), 2000);
    assert_eq!(world.balance(key(VAULT_A)), 0);
    assert_eq!(world.balance(key(VAULT_B)), 0);
}

#[test]
fn swap_refusals() {
    let mut world = funded_world(1000, 2000);
    let ix = EscrowInstruction::CompleteSwap.to_vec();
    let refusal = |accounts: &[Account]| {
        process_instruction(&program_id(), accounts, &ix).unwrap_err()
    };
    let early = swap_accounts(&world, signer(key(USER_A)));
    assert_eq!(refusal(&early), EscrowError::EscrowNotReady);
    assert_eq!(refusal(&early[..7]), EscrowError::MalformedInstruction);
    deposit_a(&mut world, 1000).unwrap();
    assert_eq!(refusal(&swap_accounts(&world, signer(key(USER_A)))), EscrowError::EscrowNotReady);
    deposit_b(&mut world, 2000).unwrap();
    assert_eq!(refusal(&swap_accounts(&world, plain(key(USER_A)))), EscrowError::UnauthorizedCancel);
    assert_eq!(
        refusal(&swap_accounts(&world, signer(key(STRANGER)))),
        EscrowError::UnauthorizedCancel
    );
    let mut other_program = swap_accounts(&world, signer(key(USER_A)));
    other_program[7].key = key(99);
    assert_eq!(refusal(&other_program), EscrowError::TransferFailed);
    let mut no_record = swap_accounts(&world, signer(key(USER_A)));
    no_record[1].data.push(0);
    assert_eq!(refusal(&no_record), EscrowError::InvalidAccountData);
}

#[test]
fn cancel_after_one_deposit_refunds_it() {
    let mut world = funded_world(500, 1000);
    deposit_a(&mut world, 500).unwrap();
    assert_eq!(world.balance(key(A_TOKEN_A)), 0);
    assert_eq!(world.balance(key(VAULT_A)), 500);
    let accounts = cancel_accounts(&world, signer(key(USER_A)));
    let settlement =
        process_instruction(&program_id(), &accounts, &EscrowInstruction::Cancel.to_vec()).unwrap();
    let vault = VaultCustodian::derive(&program_id(), &key(SLOT)).unwrap();
    assert_eq!(
        settlement.transfers,
        vec![vault.release(&token_program(), &key(VAULT_A), &key(A_TOKEN_A), 500).unwrap()]
    );
    world.carry_out(settlement).unwrap();
    assert_eq!(world.balance(key(A_TOKEN_A)), 500);
    assert_eq!(world.balance(key(VAULT_A)), 0);
    assert_eq!(world.record().status, EscrowStatus::Cancelled);
    assert_eq!(world.record().token_a_deposited, false);
}

#[test]
fn cancel_by_second_party_refunds_its_deposit() {
    let mut world = funded_world(500, 1000);
    deposit_b(&mut world, 1000).unwrap();
    let accounts = cancel_accounts(&world, signer(key(USER_B)));
    world.run(&accounts, EscrowInstruction::Cancel).unwrap();
    assert_eq!(world.balance(key(B_TOKEN_B)), 1000);
    assert_eq!(world.balance(key(VAULT_B)), 0);
    assert_eq!(world.record().status, EscrowStatus::Cancelled);
    assert_eq!(world.record().token_b_deposited, false);
    assert_eq!(world.record().user_b, key(USER_B));
}

#[test]
fn cancel_without_deposit_moves_nothing() {
    let mut world = funded_world(500, 1000);
    let mut accounts = cancel_accounts(&world, signer(key(USER_A)));
    accounts[7].key = key(99);
    let settlement =
        process_instruction(&program_id(), &accounts, &EscrowInstruction::Cancel.to_vec()).unwrap();
    assert!(settlement.transfers.is_empty());
    world.carry_out(settlement).unwrap();
    assert_eq!(world.record().status, EscrowStatus::Cancelled);
}

#[test]
fn cancel_refusals() {
    let mut world = funded_world(500, 1000);
    let ix = EscrowInstruction::Cancel.to_vec();
    let refusal = |accounts: &[Account]| {
        process_instruction(&program_id(), accounts, &ix).unwrap_err()
    };
    assert_eq!(
        refusal(&cancel_accounts(&world, signer(key(STRANGER)))),
        EscrowError::UnauthorizedCancel
    );
    assert_eq!(
        refusal(&cancel_accounts(&world, plain(key(USER_A)))),
        EscrowError::UnauthorizedCancel
    );
    assert_eq!(
        refusal(&cancel_accounts(&world, signer(key(USER_A)))[..7]),
        EscrowError::MalformedInstruction
    );
    deposit_a(&mut world, 500).unwrap();
    let mut other_program = cancel_accounts(&world, signer(key(USER_A)));
    other_program[7].key = key(99);
    assert_eq!(refusal(&other_program), EscrowError::TransferFailed);
    deposit_b(&mut world, 1000).unwrap();
    assert_eq!(
        refusal(&cancel_accounts(&world, signer(key(USER_A)))),
        EscrowError::UnauthorizedCancel
    );
}

#[test]
fn finished_escrow_refuses_every_command() {
    let mut world = funded_world(1000, 2000);
    deposit_a(&mut world, 1000).unwrap();
    deposit_b(&mut world, 2000).unwrap();
    let accounts = swap_accounts(&world, signer(key(USER_A)));
    world.run(&accounts, EscrowInstruction::CompleteSwap).unwrap();
    let before = world.slot.data.clone();
    let balances = world.balances.clone();

    assert_eq!(deposit_a(&mut world, 1000), Err(EscrowError::EscrowNotReady));
    assert_eq!(deposit_b(&mut world, 2000), Err(EscrowError::EscrowNotReady));
    let accounts = swap_accounts(&world, signer(key(USER_A)));
    assert_eq!(
        world.run(&accounts, EscrowInstruction::CompleteSwap),
        Err(EscrowError::EscrowNotReady)
    );
    let accounts = cancel_accounts(&world, signer(key(USER_B)));
    assert_eq!(
        world.run(&accounts, EscrowInstruction::Cancel),
        Err(EscrowError::UnauthorizedCancel)
    );
    assert_eq!(init(&mut world, 1000, 2000), Err(EscrowError::AlreadyInitialized));
    assert_eq!(world.slot.data, before);
    assert_eq!(world.balances, balances);
}

#[test]
fn cancelled_escrow_refuses_every_command() {
    let mut world = funded_world(500, 1000);
    deposit_a(&mut world, 500).unwrap();
    let accounts = cancel_accounts(&world, signer(key(USER_A)));
    world.run(&accounts, EscrowInstruction::Cancel).unwrap();
    let before = world.slot.data.clone();

    assert_eq!(deposit_a(&mut world, 500), Err(EscrowError::EscrowNotReady));
    let accounts = swap_accounts(&world, signer(key(USER_A)));
    assert_eq!(
        world.run(&accounts, EscrowInstruction::CompleteSwap),
        Err(EscrowError::EscrowNotReady)
    );
    let accounts = cancel_accounts(&world, signer(key(USER_A)));
    assert_eq!(world.run(&accounts, EscrowInstruction::Cancel), Err(EscrowError::EscrowNotReady));
    assert_eq!(world.slot.data, before);
}

#[test]
fn persist_hands_out_bytes_only_after_every_transfer() {
    let world = funded_world(1000, 2000);
    let accounts = deposit_accounts(&world, signer(key(USER_A)), A_TOKEN_A, VAULT_A);
    let ix = EscrowInstruction::Deposit { amount: 1000 }.to_vec();
    let settlement = process_instruction(&program_id(), &accounts, &ix).unwrap();
    let data = settlement.data.clone();
    assert_eq!(settlement.clone().persist(0), Err(EscrowError::TransferFailed));
    assert_eq!(settlement.clone().persist(2), Err(EscrowError::TransferFailed));
    assert_eq!(settlement.persist(1), Ok(data));
}
