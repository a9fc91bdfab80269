use anchor_lang::prelude::Pubkey;
use staking_voting::{derive_vault, same_address, verify_vault};

#[test]
fn derived_vault_matches_program_address() {
    let owner = [3u8; 32];
    let program = [11u8; 32];
    let (expected, _) = Pubkey::find_program_address(
        &[b"vault", owner.as_ref()],
        &Pubkey::new_from_array(program),
    );
    let got = derive_vault(&owner, &program).unwrap();
    assert_eq!(got, expected.to_bytes());
    assert_ne!(got, owner);
    assert_ne!(got, program);
}

#[test]
fn vaults_differ_between_owners() {
    let program = [11u8; 32];
    let a = derive_vault(&[1u8; 32], &program).unwrap();
    let b = derive_vault(&[2u8; 32], &program).unwrap();
    assert_ne!(a, b);
}

#[test]
fn verify_vault_accepts_only_the_derived_address() {
    let owner = [5u8; 32];
    let program = [6u8; 32];
    let v = derive_vault(&owner, &program).unwrap();
    assert!(verify_vault(&owner, &v, &program));
    let mut other = v;
    other[31] ^= 1;
    assert!(!verify_vault(&owner, &other, &program));
    assert!(!verify_vault(&owner, &owner, &program));
    assert!(!verify_vault(&[4u8; 32], &v, &program));
}

#[test]
fn same_address_compares_every_byte() {
    let a = [1u8; 32];
    let mut b = a;
    assert!(same_address(&a, &b));
    b[0] = 2;
    assert!(!same_address(&a, &b));
    b[0] = 1;
    b[31] = 0;
    assert!(!same_address(&a, &b));
}
