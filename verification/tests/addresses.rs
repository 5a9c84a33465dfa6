use anchor_lang::prelude::Pubkey;
use std::str::FromStr;
use vault_manager::{
    find_authority_address, find_vault_address, Address, ProgramAddress, AUTHORITY_TAG, VAULT_TAG,
};

fn program() -> Pubkey {
    Pubkey::from_str("2eH4VtkkB5X5592hmuQqFQvQ9QKaTEmRZyvQgf9EWyxp").unwrap()
}

fn address_of(key: &Pubkey) -> Address {
    Address::new(key.to_bytes())
}

fn numbered(n: u8) -> Address {
    let mut bytes = [0u8; 32];
    bytes[31] = n;
    Address::new(bytes)
}

#[test]
fn tags_spell_their_text() {
    assert_eq!(&AUTHORITY_TAG, b"SSF_ACCOUNT_VAULT");
    assert_eq!(&VAULT_TAG, b"SSF_PDA_VAULT");
}

#[test]
fn address_equality_compares_every_byte() {
    let a = numbered(1);
    let b = numbered(1);
    let c = numbered(2);
    let mut first = [0u8; 32];
    first[0] = 1;
    assert!(a == b);
    assert!(a != c);
    assert!(a != Address::new(first));
    assert_eq!(Address::new([9u8; 32]).bytes, [9u8; 32]);
}

#[test]
fn authority_address_is_the_program_address_of_its_seed() {
    let id = program();
    let (key, bump) = Pubkey::find_program_address(&[b"SSF_ACCOUNT_VAULT"], &id);
    let found = find_authority_address(&address_of(&id));
    assert_eq!(found, Some(ProgramAddress { address: address_of(&key), bump }));
}

#[test]
fn vault_address_is_the_program_address_of_tag_and_mint() {
    let id = program();
    let mint = Pubkey::new_from_array([3u8; 32]);
    let (key, bump) = Pubkey::find_program_address(&[b"SSF_PDA_VAULT", mint.as_ref()], &id);
    let found = find_vault_address(&address_of(&id), &address_of(&mint));
    assert_eq!(found, Some(ProgramAddress { address: address_of(&key), bump }));
}

#[test]
fn derived_address_is_recreated_from_seeds_and_bump() {
    let id = program();
    let mint = Pubkey::new_from_array([5u8; 32]);
    let found = find_vault_address(&address_of(&id), &address_of(&mint)).unwrap();
    let bump = [found.bump];
    let again =
        Pubkey::create_program_address(&[b"SSF_PDA_VAULT", mint.as_ref(), &bump], &id).unwrap();
    assert_eq!(found.address, address_of(&again));
    assert!(!again.is_on_curve());
}

#[test]
fn derived_address_is_none_of_its_inputs() {
    let id = address_of(&program());
    let mint = numbered(9);
    let authority = find_authority_address(&id).unwrap();
    let vault = find_vault_address(&id, &mint).unwrap();
    assert!(authority.address != id);
    assert!(vault.address != id);
    assert!(vault.address != mint);
    assert!(vault.address != authority.address);
}

#[test]
fn derivation_gives_the_same_address_each_time() {
    let id = address_of(&program());
    let mint = numbered(4);
    assert_eq!(find_authority_address(&id), find_authority_address(&id));
    assert_eq!(find_vault_address(&id, &mint), find_vault_address(&id, &mint));
}

#[test]
fn distinct_mints_get_distinct_vault_addresses() {
    let id = address_of(&program());
    let mut seen: Vec<Address> = Vec::new();
    for n in 0..20u8 {
        let place = find_vault_address(&id, &numbered(n)).unwrap();
        assert!(!seen.contains(&place.address));
        seen.push(place.address);
    }
}

#[test]
fn another_program_gets_other_addresses() {
    let id = address_of(&program());
    let other = numbered(1);
    let mint = numbered(4);
    assert!(find_authority_address(&id).unwrap().address
        != find_authority_address(&other).unwrap().address);
    assert!(find_vault_address(&id, &mint).unwrap().address
        != find_vault_address(&other, &mint).unwrap().address);
}
