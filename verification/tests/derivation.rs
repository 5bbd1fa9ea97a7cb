use anchor_lang::prelude::Pubkey;
use anchor_spl::associated_token::get_associated_token_address_with_program_id;
use anchor_spl::metadata::mpl_token_metadata::accounts::{MasterEdition, Metadata};
use nft_pass::address::{
    derive_address, derive_holding, derive_keys, derive_membership, derive_mint, derive_registry_keys,
    Address, Programs, EDITION_SEED, MEMBERSHIP_SEED, METADATA_SEED, MINT_SEED,
};

fn address(key: Pubkey) -> Address {
    Address::new(key.to_bytes())
}

fn pubkey(a: &Address) -> Pubkey {
    Pubkey::new_from_array(a.bytes)
}

fn program() -> Pubkey {
    Pubkey::from_str_const("9LXodSGJm8GhbbMyYWSh48YpkRDgFTQSoeezGPtLKJN2")
}

fn user() -> Pubkey {
    Pubkey::new_from_array([17u8; 32])
}

#[test]
fn seed_tags() {
    assert_eq!(MINT_SEED, "mint");
    assert_eq!(MEMBERSHIP_SEED, "membership");
    assert_eq!(METADATA_SEED, "metadata");
    assert_eq!(EDITION_SEED, "edition");
}

#[test]
fn address_equality_is_by_bytes() {
    let a = Address::new([1u8; 32]);
    let mut bytes = [1u8; 32];
    assert_eq!(a, Address::new(bytes));
    bytes[31] = 2;
    assert_ne!(a, Address::new(bytes));
    bytes[31] = 1;
    bytes[0] = 0;
    assert_ne!(a, Address::new(bytes));
    assert_eq!(Address::zeroed(), Address::new([0u8; 32]));
    assert_eq!(a.to_seed(), vec![1u8; 32]);
}

#[test]
fn derive_gives_the_program_address_and_bump() {
    let seeds: Vec<Vec<u8>> = vec![b"vault".to_vec(), user().to_bytes().to_vec()];
    let (expected, bump) =
        Pubkey::find_program_address(&[b"vault", user().as_ref()], &program());
    let got = derive_address(&seeds, &address(program()));
    assert_eq!(got, Some((address(expected), bump)));
    let (found, _) = got.expect("derived");
    assert_ne!(found, address(program()));
    assert_ne!(found, address(user()));
    assert!(!pubkey(&found).is_on_curve());
    // The bump recreates the address.
    let again = Pubkey::create_program_address(&[b"vault", user().as_ref(), &[bump]], &program());
    assert_eq!(again.ok(), Some(expected));
}

#[test]
fn derive_is_a_function_of_seeds_and_program() {
    let seeds: Vec<Vec<u8>> = vec![b"a".to_vec(), b"b".to_vec()];
    let first = derive_address(&seeds, &address(program()));
    assert_eq!(first, derive_address(&seeds.clone(), &address(program())));
    assert_ne!(first, derive_address(&seeds, &address(user())));
    let other: Vec<Vec<u8>> = vec![b"a".to_vec(), b"c".to_vec()];
    assert_ne!(first, derive_address(&other, &address(program())));
}

#[test]
fn derive_without_seeds() {
    let (expected, bump) = Pubkey::find_program_address(&[], &program());
    assert_eq!(derive_address(&Vec::new(), &address(program())), Some((address(expected), bump)));
}

#[test]
fn derive_rejects_overlong_seed_and_too_many_seeds() {
    let long: Vec<Vec<u8>> = vec![vec![0u8; 33]];
    assert_eq!(derive_address(&long, &address(program())), None);
    let fits: Vec<Vec<u8>> = vec![vec![0u8; 32]];
    assert!(derive_address(&fits, &address(program())).is_some());
    let many: Vec<Vec<u8>> = vec![vec![1u8]; 16];
    assert_eq!(derive_address(&many, &address(program())), None);
    let most: Vec<Vec<u8>> = vec![vec![1u8]; 15];
    assert!(derive_address(&most, &address(program())).is_some());
}

#[test]
fn mint_address_is_derived_from_tag_and_caller() {
    let (expected, bump) = Pubkey::find_program_address(&[b"mint", user().as_ref()], &program());
    assert_eq!(
        derive_mint(&address(program()), &address(user())),
        Some((address(expected), bump))
    );
}

#[test]
fn membership_address_is_derived_from_tag_caller_and_mint() {
    let (mint, _) = Pubkey::find_program_address(&[b"mint", user().as_ref()], &program());
    let (expected, bump) = Pubkey::find_program_address(
        &[b"membership", user().as_ref(), mint.as_ref()],
        &program(),
    );
    assert_eq!(
        derive_membership(&address(program()), &address(user()), &address(mint)),
        Some((address(expected), bump))
    );
}

#[test]
fn holding_address_is_the_associated_token_address() {
    let (mint, _) = Pubkey::find_program_address(&[b"mint", user().as_ref()], &program());
    let expected =
        get_associated_token_address_with_program_id(&user(), &mint, &anchor_spl::token_2022::ID);
    let got = derive_holding(
        &address(anchor_spl::associated_token::ID),
        &address(anchor_spl::token_2022::ID),
        &address(user()),
        &address(mint),
    );
    assert_eq!(got.map(|(a, _)| a), Some(address(expected)));
}

#[test]
fn registry_addresses_are_those_of_the_registry() {
    let (mint, _) = Pubkey::find_program_address(&[b"mint", user().as_ref()], &program());
    let keys = derive_registry_keys(&address(anchor_spl::metadata::ID), &address(mint))
        .expect("registry addresses");
    assert_eq!(keys.metadata, address(Metadata::find_pda(&mint).0));
    assert_eq!(keys.master_edition, address(MasterEdition::find_pda(&mint).0));
    assert_ne!(keys.metadata, keys.master_edition);
}

#[test]
fn keys_of_a_caller() {
    let programs = Programs {
        program: address(program()),
        token_program: address(anchor_spl::token_2022::ID),
        associated_token_program: address(anchor_spl::associated_token::ID),
        metadata_program: Some(address(anchor_spl::metadata::ID)),
    };
    let keys = derive_keys(&programs, &address(user())).expect("addresses derive");
    let (mint, _) = Pubkey::find_program_address(&[b"mint", user().as_ref()], &program());
    let (membership, bump) = Pubkey::find_program_address(
        &[b"membership", user().as_ref(), mint.as_ref()],
        &program(),
    );
    assert_eq!(keys.mint, address(mint));
    assert_eq!(keys.membership, address(membership));
    assert_eq!(keys.membership_bump, bump);
    assert_eq!(
        keys.user_ata,
        address(get_associated_token_address_with_program_id(
            &user(),
            &mint,
            &anchor_spl::token_2022::ID
        ))
    );
    let registry = keys.registry.expect("registry addresses");
    assert_eq!(registry.metadata, address(Metadata::find_pda(&mint).0));
    assert_eq!(registry.master_edition, address(MasterEdition::find_pda(&mint).0));

    let minimal = Programs { metadata_program: None, ..programs };
    let keys = derive_keys(&minimal, &address(user())).expect("addresses derive");
    assert_eq!(keys.mint, address(mint));
    assert_eq!(keys.membership, address(membership));
    assert!(keys.registry.is_none());

    // Another caller arrives at other addresses.
    let other = derive_keys(&minimal, &Address::new([18u8; 32])).expect("addresses derive");
    assert_ne!(other.mint, keys.mint);
    assert_ne!(other.user_ata, keys.user_ata);
    assert_ne!(other.membership, keys.membership);
}
