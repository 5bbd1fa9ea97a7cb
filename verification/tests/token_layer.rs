use nft_pass::address::Address;
use nft_pass::error::Failure;
use nft_pass::state::token::{
    freeze_account, mint_to, set_authority, thaw_account, transfer, AuthorityType, Mint,
    TokenAccount, DECIMALS,
};

fn who(tag: u8) -> Address {
    Address::new([tag; 32])
}

#[test]
fn new_token_class_and_holding_account() {
    assert_eq!(DECIMALS, 0);
    assert_eq!(
        Mint::new(who(1)),
        Mint {
            decimals: 0,
            mint_authority: Some(who(1)),
            freeze_authority: Some(who(1)),
            supply: 0
        }
    );
    assert_eq!(
        TokenAccount::new(who(2), who(1)),
        TokenAccount { mint: who(2), owner: who(1), amount: 0, frozen: false }
    );
}

#[test]
fn mint_to_adds_to_supply_and_balance() {
    let mut class = Mint::new(who(1));
    let mut holding = TokenAccount::new(who(2), who(1));
    assert_eq!(mint_to(&mut class, &mut holding, &who(1), 1), Ok(()));
    assert_eq!(class.supply, 1);
    assert_eq!(holding.amount, 1);
    assert_eq!(class.mint_authority, Some(who(1)));
    assert!(!holding.frozen);
}

#[test]
fn mint_to_wants_the_mint_authority() {
    let mut class = Mint::new(who(1));
    let mut holding = TokenAccount::new(who(2), who(1));
    assert_eq!(mint_to(&mut class, &mut holding, &who(3), 1), Err(Failure::AuthorityMismatch));
    assert_eq!(class, Mint::new(who(1)));
    assert_eq!(holding, TokenAccount::new(who(2), who(1)));
    class.mint_authority = None;
    assert_eq!(mint_to(&mut class, &mut holding, &who(1), 1), Err(Failure::AuthorityMismatch));
    assert_eq!(holding.amount, 0);
    assert_eq!(class.supply, 0);
}

#[test]
fn mint_to_wants_an_empty_unfrozen_account() {
    let mut class = Mint::new(who(1));
    let mut holding = TokenAccount::new(who(2), who(1));
    assert_eq!(mint_to(&mut class, &mut holding, &who(1), 1), Ok(()));
    assert_eq!(mint_to(&mut class, &mut holding, &who(1), 1), Err(Failure::BalanceNotEmpty));
    assert_eq!((class.supply, holding.amount), (1, 1));
    let mut cold = TokenAccount { frozen: true, ..TokenAccount::new(who(2), who(1)) };
    assert_eq!(mint_to(&mut class, &mut cold, &who(1), 1), Err(Failure::AccountFrozen));
    assert_eq!((class.supply, cold.amount), (1, 0));
}

#[test]
fn mint_to_keeps_supply_in_range() {
    let mut class = Mint { supply: u64::MAX, ..Mint::new(who(1)) };
    let mut holding = TokenAccount::new(who(2), who(1));
    assert_eq!(mint_to(&mut class, &mut holding, &who(1), 1), Err(Failure::Overflow));
    assert_eq!((class.supply, holding.amount), (u64::MAX, 0));
    assert_eq!(mint_to(&mut class, &mut holding, &who(1), 0), Ok(()));
    let mut class = Mint { supply: u64::MAX - 5, ..Mint::new(who(1)) };
    assert_eq!(mint_to(&mut class, &mut holding, &who(1), 5), Ok(()));
    assert_eq!((class.supply, holding.amount), (u64::MAX, 5));
}

#[test]
fn freeze_and_thaw_want_the_freeze_authority() {
    let mut class = Mint::new(who(1));
    let mut holding = TokenAccount::new(who(2), who(1));
    assert_eq!(freeze_account(&class, &mut holding, &who(3)), Err(Failure::AuthorityMismatch));
    assert!(!holding.frozen);
    assert_eq!(freeze_account(&class, &mut holding, &who(1)), Ok(()));
    assert!(holding.frozen);
    assert_eq!(thaw_account(&class, &mut holding, &who(3)), Err(Failure::AuthorityMismatch));
    assert!(holding.frozen);
    assert_eq!(thaw_account(&class, &mut holding, &who(1)), Ok(()));
    assert!(!holding.frozen);
    assert_eq!(freeze_account(&class, &mut holding, &who(1)), Ok(()));
    class.freeze_authority = None;
    assert_eq!(thaw_account(&class, &mut holding, &who(1)), Err(Failure::AuthorityMismatch));
    assert_eq!(freeze_account(&class, &mut holding, &who(1)), Err(Failure::AuthorityMismatch));
    assert!(holding.frozen);
}

#[test]
fn set_authority_hands_over_or_revokes() {
    let mut class = Mint::new(who(1));
    assert_eq!(
        set_authority(&mut class, AuthorityType::MintTokens, &who(2), None),
        Err(Failure::AuthorityMismatch)
    );
    assert_eq!(class, Mint::new(who(1)));
    assert_eq!(
        set_authority(&mut class, AuthorityType::MintTokens, &who(1), Some(who(2))),
        Ok(())
    );
    assert_eq!(class.mint_authority, Some(who(2)));
    assert_eq!(class.freeze_authority, Some(who(1)));
    assert_eq!(set_authority(&mut class, AuthorityType::MintTokens, &who(2), None), Ok(()));
    assert_eq!(class.mint_authority, None);
    assert_eq!(set_authority(&mut class, AuthorityType::FreezeAccount, &who(1), None), Ok(()));
    assert_eq!(class.freeze_authority, None);
    assert_eq!((class.decimals, class.supply), (0, 0));
}

#[test]
fn revoked_authority_cannot_be_taken_up_again() {
    let mut class = Mint::new(who(1));
    assert_eq!(set_authority(&mut class, AuthorityType::MintTokens, &who(1), None), Ok(()));
    assert_eq!(set_authority(&mut class, AuthorityType::FreezeAccount, &who(1), None), Ok(()));
    for kind in [AuthorityType::MintTokens, AuthorityType::FreezeAccount] {
        for asks in [who(1), who(2)] {
            assert_eq!(
                set_authority(&mut class, kind, &asks, Some(asks)),
                Err(Failure::AuthorityMismatch)
            );
        }
    }
    assert_eq!((class.mint_authority, class.freeze_authority), (None, None));
}

#[test]
fn transfer_moves_units_between_unfrozen_accounts() {
    let mut from = TokenAccount { amount: 5, ..TokenAccount::new(who(9), who(1)) };
    let mut to = TokenAccount { amount: 2, ..TokenAccount::new(who(9), who(2)) };
    assert_eq!(transfer(&mut from, &mut to, &who(1), 3), Ok(()));
    assert_eq!((from.amount, to.amount), (2, 5));
    assert_eq!(transfer(&mut from, &mut to, &who(2), 1), Err(Failure::AuthorityMismatch));
    assert_eq!(transfer(&mut from, &mut to, &who(1), 3), Err(Failure::InsufficientFunds));
    assert_eq!((from.amount, to.amount), (2, 5));
    to.amount = u64::MAX - 1;
    assert_eq!(transfer(&mut from, &mut to, &who(1), 2), Err(Failure::Overflow));
    assert_eq!(transfer(&mut from, &mut to, &who(1), 1), Ok(()));
    assert_eq!((from.amount, to.amount), (1, u64::MAX));
}

#[test]
fn transfer_is_rejected_while_either_account_is_frozen() {
    let mut from = TokenAccount { amount: 1, frozen: true, ..TokenAccount::new(who(9), who(1)) };
    let mut to = TokenAccount::new(who(9), who(2));
    assert_eq!(transfer(&mut from, &mut to, &who(1), 1), Err(Failure::AccountFrozen));
    assert_eq!(transfer(&mut from, &mut to, &who(1), 0), Err(Failure::AccountFrozen));
    from.frozen = false;
    to.frozen = true;
    assert_eq!(transfer(&mut from, &mut to, &who(1), 1), Err(Failure::AccountFrozen));
    assert_eq!((from.amount, to.amount), (1, 0));
}
