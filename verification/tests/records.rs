use nft_pass::address::Address;
use nft_pass::error::Failure;
use nft_pass::ledger::{Account, Ledger};
use nft_pass::state::membership::Membership;
use nft_pass::state::metadata::{MasterEdition, PrintSupply};
use nft_pass::state::token::{Mint, TokenAccount};

fn who(tag: u8) -> Address {
    Address::new([tag; 32])
}

#[test]
fn new_ledger_is_empty() {
    let ledger = Ledger::new();
    assert!(!ledger.contains(&who(0)));
    assert!(!ledger.contains(&who(1)));
    assert_eq!(ledger.get(&who(1)), None);
}

#[test]
fn create_if_absent_reject_if_present() {
    let mut ledger = Ledger::new();
    let first = Account::Mint(Mint::new(who(1)));
    let second = Account::Token(TokenAccount::new(who(5), who(1)));
    assert_eq!(ledger.create(who(5), first.clone()), Ok(()));
    assert_eq!(ledger.get(&who(5)), Some(&first));
    assert_eq!(ledger.create(who(5), second.clone()), Err(Failure::AccountAlreadyExists));
    assert_eq!(ledger.get(&who(5)), Some(&first));
    assert_eq!(ledger.create(who(6), second.clone()), Ok(()));
    assert_eq!(ledger.get(&who(5)), Some(&first));
    assert_eq!(ledger.get(&who(6)), Some(&second));
    assert!(ledger.contains(&who(5)));
    assert!(ledger.contains(&who(6)));
    assert!(!ledger.contains(&who(7)));
}

#[test]
fn readers_by_kind() {
    let mut ledger = Ledger::new();
    let record = Membership::new(who(1), 3, -7, 254);
    let edition = MasterEdition { mint: who(2), print_supply: PrintSupply::Zero };
    assert_eq!(ledger.create(who(10), Account::Membership(record)), Ok(()));
    assert_eq!(ledger.create(who(11), Account::Mint(Mint::new(who(1)))), Ok(()));
    assert_eq!(ledger.create(who(12), Account::Token(TokenAccount::new(who(11), who(1)))), Ok(()));
    assert_eq!(ledger.create(who(13), Account::MasterEdition(edition)), Ok(()));
    assert_eq!(ledger.membership(&who(10)), Some(record));
    assert_eq!(ledger.membership(&who(11)), None);
    assert_eq!(ledger.membership(&who(99)), None);
    assert_eq!(ledger.mint(&who(11)), Some(Mint::new(who(1))));
    assert_eq!(ledger.mint(&who(10)), None);
    assert_eq!(ledger.token_account(&who(12)), Some(TokenAccount::new(who(11), who(1))));
    assert_eq!(ledger.token_account(&who(11)), None);
    assert_eq!(ledger.master_edition(&who(13)), Some(edition));
    assert_eq!(ledger.master_edition(&who(12)), None);
    assert_eq!(ledger.metadata(&who(13)), None);
    assert_eq!(ledger.metadata(&who(99)), None);
}

#[test]
fn membership_record_takes_42_bytes() {
    assert_eq!(Membership::INIT_SPACE, 42);
    let record = Membership::new(who(1), 2, 1893456000, 254);
    let bytes = record.to_bytes();
    assert_eq!(bytes.len(), 42);
    let mut expected = vec![1u8; 32];
    expected.push(2);
    // 1893456000 = 0x70DBD880
    expected.extend_from_slice(&[0x80, 0xd8, 0xdb, 0x70, 0, 0, 0, 0]);
    expected.push(254);
    assert_eq!(bytes, expected);
    assert_eq!(Membership::from_bytes(&bytes), Some(record));
}

#[test]
fn membership_record_with_negative_expiry() {
    let record = Membership::new(who(3), 0, -2, 0);
    let bytes = record.to_bytes();
    assert_eq!(&bytes[32..], &[0, 0xfe, 0xff, 0xff, 0xff, 0xff, 0xff, 0xff, 0xff, 0]);
    assert_eq!(&bytes[33..41], &(-2i64).to_le_bytes());
    assert_eq!(Membership::from_bytes(&bytes), Some(record));
    for expiry in [i64::MIN, i64::MIN + 1, -1, 0, 1, i64::MAX] {
        let record = Membership::new(who(4), 255, expiry, 255);
        let bytes = record.to_bytes();
        assert_eq!(&bytes[33..41], &expiry.to_le_bytes());
        assert_eq!(Membership::from_bytes(&bytes), Some(record));
    }
}

#[test]
fn membership_record_from_bytes_of_wrong_length() {
    assert_eq!(Membership::from_bytes(&[]), None);
    assert_eq!(Membership::from_bytes(&[0u8; 41]), None);
    assert_eq!(Membership::from_bytes(&[0u8; 43]), None);
    assert_eq!(Membership::from_bytes(&[0u8; 42]), Some(Membership::zeroed()));
    let mut bytes = [0u8; 42];
    bytes[0] = 9;
    bytes[32] = 4;
    bytes[40] = 0x80;
    bytes[41] = 6;
    let mut owner = [0u8; 32];
    owner[0] = 9;
    let record = Membership::from_bytes(&bytes).expect("42 bytes");
    assert_eq!(record, Membership::new(Address::new(owner), 4, i64::MIN, 6));
    assert_eq!(record.to_bytes(), bytes.to_vec());
}
