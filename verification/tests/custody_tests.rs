use solana_escrow::address::Address;
use solana_escrow::custody::{AccountMeta, VaultCustodian};
use solana_escrow::errors::EscrowError;

fn key(n: u8) -> Address {
    Address { bytes: [n; 32] }
}

fn token_program() -> Address {
    Address {
        bytes: [
            6, 221, 246, 225, 215, 101, 161, 147, 217, 203, 225, 70, 206, 235, 121, 172, 28, 180,
            133, 237, 95, 91, 55, 145, 58, 140, 245, 133, 126, 255, 0, 169,
        ],
    }
}

#[test]
fn receive_builds_transfer_signed_by_depositor() {
    let ix = VaultCustodian::receive(&token_program(), &key(1), &key(2), &key(3), 1000).unwrap();
    assert_eq!(ix.program_id, token_program());
    assert_eq!(
        ix.accounts,
        vec![
            AccountMeta { pubkey: key(2), is_signer: false, is_writable: true },
            AccountMeta { pubkey: key(3), is_signer: false, is_writable: true },
            AccountMeta { pubkey: key(1), is_signer: true, is_writable: false },
        ]
    );
    assert_eq!(ix.data, vec![3, 0xe8, 0x03, 0, 0, 0, 0, 0, 0]);
}

#[test]
fn receive_refuses_other_program() {
    let r = VaultCustodian::receive(&key(9), &key(1), &key(2), &key(3), 1000);
    assert_eq!(r, Err(EscrowError::TransferFailed));
}

#[test]
fn derive_is_deterministic_and_off_the_seeds() {
    let a = VaultCustodian::derive(&key(7), &key(1)).unwrap();
    let b = VaultCustodian::derive(&key(7), &key(1)).unwrap();
    let c = VaultCustodian::derive(&key(7), &key(2)).unwrap();
    assert_eq!(a, b);
    assert_ne!(a.authority, c.authority);
    assert_ne!(a.authority, key(1));
}

#[test]
fn release_is_signed_by_the_vault_authority() {
    let vault = VaultCustodian::derive(&key(7), &key(1)).unwrap();
    let ix = vault.release(&token_program(), &key(4), &key(5), 2000).unwrap();
    assert_eq!(
        ix.accounts,
        vec![
            AccountMeta { pubkey: key(4), is_signer: false, is_writable: true },
            AccountMeta { pubkey: key(5), is_signer: false, is_writable: true },
            AccountMeta { pubkey: vault.authority, is_signer: true, is_writable: false },
        ]
    );
    assert_eq!(ix.data, vec![3, 0xd0, 0x07, 0, 0, 0, 0, 0, 0]);
}
