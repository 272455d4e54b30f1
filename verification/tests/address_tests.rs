use ore_cli_utils::addresses::{Address, AddressDeriver};
use solana_program::pubkey::Pubkey;

fn address_of(key: &Pubkey) -> Address {
    Address::from_bytes(key.to_bytes().to_vec()).unwrap()
}

#[test]
fn address_from_bytes_accepts_only_32() {
    assert!(Address::from_bytes(vec![0u8; 31]).is_none());
    assert!(Address::from_bytes(vec![0u8; 33]).is_none());
    assert!(Address::from_bytes(vec![0u8; 32]).is_some());
}

#[test]
fn proof_pubkey_matches_platform_derivation() {
    let authority = Pubkey::new_unique();
    let mut deriver = AddressDeriver::new();
    let derived = deriver.proof_pubkey(&address_of(&authority));
    let expected = ore_api::state::proof_pda(authority).0;
    assert_eq!(derived.as_bytes().as_slice(), expected.to_bytes().as_slice());
}

#[test]
fn proof_pubkey_deterministic_and_memoized() {
    let authority = Pubkey::new_unique();
    let authority = address_of(&authority);
    let mut deriver = AddressDeriver::new();
    assert_eq!(deriver.derivations(), 0);
    let first = deriver.proof_pubkey(&authority);
    assert_eq!(deriver.derivations(), 1);
    let second = deriver.proof_pubkey(&authority);
    assert_eq!(deriver.derivations(), 1);
    assert!(first.equals(&second));
    assert_eq!(first.as_bytes(), second.as_bytes());
}

#[test]
fn proof_pubkey_distinct_authorities_distinct_addresses() {
    let a1 = Pubkey::new_unique();
    let a2 = Pubkey::new_unique();
    assert_ne!(a1, a2);
    let mut deriver = AddressDeriver::new();
    let d1 = deriver.proof_pubkey(&address_of(&a1));
    let d2 = deriver.proof_pubkey(&address_of(&a2));
    assert_eq!(deriver.derivations(), 2);
    assert!(!d1.equals(&d2));
}

#[test]
fn treasury_tokens_pubkey_matches_program_constant() {
    let mut deriver = AddressDeriver::new();
    let derived = deriver.treasury_tokens_pubkey();
    let expected = ore_api::consts::TREASURY_TOKENS_ADDRESS;
    assert_eq!(derived.as_bytes().as_slice(), expected.to_bytes().as_slice());
}

#[test]
fn treasury_tokens_pubkey_memoized() {
    let mut deriver = AddressDeriver::new();
    let first = deriver.treasury_tokens_pubkey();
    assert_eq!(deriver.derivations(), 1);
    let second = deriver.treasury_tokens_pubkey();
    assert_eq!(deriver.derivations(), 1);
    assert!(first.equals(&second));
}

#[test]
fn derivation_does_not_echo_its_input() {
    let authority = Pubkey::new_unique();
    let address = address_of(&authority);
    let mut deriver = AddressDeriver::new();
    let derived = deriver.proof_pubkey(&address);
    assert!(!derived.equals(&address));
}
