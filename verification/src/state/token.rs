//! Token classes and holding accounts, with the rules of the token layer as
//! far as the issuance relies on them.
//!
//! Permission to mint or to freeze is a capability attached to the token
//! class: an identity that holds it, or none. Once it is none, nobody can
//! take it up again.

use crate::address::Address;
use crate::error::Failure;
use vstd::prelude::*;

verus! {

/// Decimal places of a pass: none, a pass is not divided.
pub const DECIMALS: u8 = 0;

/// A class of units on the ledger.
#[derive(Clone, Copy, Debug, PartialEq, Eq)]
pub struct Mint {
    /// Number of decimal places of a unit; passes have none.
    pub decimals: u8,
    /// The identity allowed to create units, if any.
    pub mint_authority: Option<Address>,
    /// The identity allowed to freeze and thaw holdings, if any.
    pub freeze_authority: Option<Address>,
    /// Units created so far.
    pub supply: u64,
}

/// The balance record of one owner for one token class.
#[derive(Clone, Copy, Debug, PartialEq, Eq)]
pub struct TokenAccount {
    /// Address of the token class.
    pub mint: Address,
    /// The identity the balance belongs to.
    pub owner: Address,
    /// Units held.
    pub amount: u64,
    /// While set, the token layer accepts no change of the balance.
    pub frozen: bool,
}

/// The capabilities attached to a token class.
#[derive(Clone, Copy, Debug, PartialEq, Eq, Structural)]
pub enum AuthorityType {
    /// Permission to create units.
    MintTokens,
    /// Permission to freeze and thaw holdings.
    FreezeAccount,
}

impl Mint {
    /// A new token class without decimals, with both capabilities held by
    /// `authority` and no unit created.
    pub fn new(authority: Address) -> (mint: Mint)
        ensures
            mint == Mint::allocated(authority),
    {
        Mint {
            decimals: DECIMALS,
            mint_authority: Some(authority),
            freeze_authority: Some(authority),
            supply: 0,
        }
    }

    /// The token class as it is allocated for `authority`.
    pub open spec fn allocated(authority: Address) -> Mint {
        Mint {
            decimals: DECIMALS,
            mint_authority: Some(authority),
            freeze_authority: Some(authority),
            supply: 0,
        }
    }

    /// The holder of the capability `kind`.
    pub open spec fn authority(self, kind: AuthorityType) -> Option<Address> {
        match kind {
            AuthorityType::MintTokens => self.mint_authority,
            AuthorityType::FreezeAccount => self.freeze_authority,
        }
    }

    /// The token class with the capability `kind` handed to `holder`.
    pub open spec fn with_authority(self, kind: AuthorityType, holder: Option<Address>) -> Mint {
        match kind {
            AuthorityType::MintTokens => Mint { mint_authority: holder, ..self },
            AuthorityType::FreezeAccount => Mint { freeze_authority: holder, ..self },
        }
    }

    /// Neither capability is held by anyone: the class is static for good.
    pub open spec fn locked(self) -> bool {
        self.mint_authority is None && self.freeze_authority is None
    }
}

impl TokenAccount {
    /// A new, empty, unfrozen holding account of `owner` for the token
    /// class at `mint`.
    pub fn new(mint: Address, owner: Address) -> (account: TokenAccount)
        ensures
            account == TokenAccount::provisioned(mint, owner),
    {
        TokenAccount { mint, owner, amount: 0, frozen: false }
    }

    /// The holding account as it is provisioned.
    pub open spec fn provisioned(mint: Address, owner: Address) -> TokenAccount {
        TokenAccount { mint, owner, amount: 0, frozen: false }
    }
}

/// What `mint_to` makes of a token class and a holding account.
pub open spec fn minted(mint: Mint, to: TokenAccount, authority: Address, amount: u64) -> Result<
    (Mint, TokenAccount),
    Failure,
> {
    if mint.mint_authority != Some(authority) {
        Err(Failure::AuthorityMismatch)
    } else if to.frozen {
        Err(Failure::AccountFrozen)
    } else if to.amount != 0 {
        Err(Failure::BalanceNotEmpty)
    } else if mint.supply + amount > u64::MAX {
        Err(Failure::Overflow)
    } else {
        Ok((Mint { supply: (mint.supply + amount) as u64, ..mint }, TokenAccount { amount, ..to }))
    }
}

/// Creates `amount` units of the token class in the holding account `to`.
/// Only the holder of the minting capability may do so, and only into an
/// empty account that is not frozen. A rejected call changes nothing.
pub fn mint_to(mint: &mut Mint, to: &mut TokenAccount, authority: &Address, amount: u64) -> (r: Result<
    (),
    Failure,
>)
    ensures
        match minted(*old(mint), *old(to), *authority, amount) {
            Ok((m, t)) => r is Ok && *final(mint) == m && *final(to) == t,
            Err(e) => {
                &&& r == Err::<(), Failure>(e)
                &&& *final(mint) == *old(mint)
                &&& *final(to) == *old(to)
            },
        },
{
    if mint.mint_authority != Some(*authority) {
        return Err(Failure::AuthorityMismatch);
    }
    if to.frozen {
        return Err(Failure::AccountFrozen);
    }
    if to.amount != 0 {
        return Err(Failure::BalanceNotEmpty);
    }
    match mint.supply.checked_add(amount) {
        None => Err(Failure::Overflow),
        Some(supply) => {
            mint.supply = supply;
            to.amount = amount;
            Ok(())
        },
    }
}

/// What `freeze_account` makes of a holding account.
pub open spec fn frozen(mint: Mint, account: TokenAccount, authority: Address) -> Result<
    TokenAccount,
    Failure,
> {
    if mint.freeze_authority != Some(authority) {
        Err(Failure::AuthorityMismatch)
    } else {
        Ok(TokenAccount { frozen: true, ..account })
    }
}

/// Freezes a holding account. Only the holder of the freezing capability
/// may do so. A rejected call changes nothing.
pub fn freeze_account(mint: &Mint, account: &mut TokenAccount, authority: &Address) -> (r: Result<
    (),
    Failure,
>)
    ensures
        match frozen(*mint, *old(account), *authority) {
            Ok(a) => r is Ok && *final(account) == a,
            Err(e) => r == Err::<(), Failure>(e) && *final(account) == *old(account),
        },
{
    if mint.freeze_authority != Some(*authority) {
        return Err(Failure::AuthorityMismatch);
    }
    account.frozen = true;
    Ok(())
}

/// What `thaw_account` makes of a holding account.
pub open spec fn thawed(mint: Mint, account: TokenAccount, authority: Address) -> Result<
    TokenAccount,
    Failure,
> {
    if mint.freeze_authority != Some(authority) {
        Err(Failure::AuthorityMismatch)
    } else {
        Ok(TokenAccount { frozen: false, ..account })
    }
}

/// Lifts the freeze of a holding account. Only the holder of the freezing
/// capability may do so. A rejected call changes nothing.
pub fn thaw_account(mint: &Mint, account: &mut TokenAccount, authority: &Address) -> (r: Result<
    (),
    Failure,
>)
    ensures
        match thawed(*mint, *old(account), *authority) {
            Ok(a) => r is Ok && *final(account) == a,
            Err(e) => r == Err::<(), Failure>(e) && *final(account) == *old(account),
        },
{
    if mint.freeze_authority != Some(*authority) {
        return Err(Failure::AuthorityMismatch);
    }
    account.frozen = false;
    Ok(())
}

/// What `set_authority` makes of a token class.
pub open spec fn reassigned(
    mint: Mint,
    kind: AuthorityType,
    authority: Address,
    holder: Option<Address>,
) -> Result<Mint, Failure> {
    if mint.authority(kind) != Some(authority) {
        Err(Failure::AuthorityMismatch)
    } else {
        Ok(mint.with_authority(kind, holder))
    }
}

/// Hands the capability `kind` of a token class to `holder`, or revokes it
/// where `holder` is `None`. Only its current holder may do so; a revoked
/// capability has no holder, so it stays revoked. A rejected call changes
/// nothing.
pub fn set_authority(
    mint: &mut Mint,
    kind: AuthorityType,
    authority: &Address,
    holder: Option<Address>,
) -> (r: Result<(), Failure>)
    ensures
        match reassigned(*old(mint), kind, *authority, holder) {
            Ok(m) => r is Ok && *final(mint) == m,
            Err(e) => r == Err::<(), Failure>(e) && *final(mint) == *old(mint),
        },
{
    match kind {
        AuthorityType::MintTokens => {
            if mint.mint_authority != Some(*authority) {
                return Err(Failure::AuthorityMismatch);
            }
            mint.mint_authority = holder;
        },
        AuthorityType::FreezeAccount => {
            if mint.freeze_authority != Some(*authority) {
                return Err(Failure::AuthorityMismatch);
            }
            mint.freeze_authority = holder;
        },
    }
    Ok(())
}

/// What `transfer` makes of two holding accounts.
pub open spec fn transferred(
    source: TokenAccount,
    destination: TokenAccount,
    authority: Address,
    amount: u64,
) -> Result<(TokenAccount, TokenAccount), Failure> {
    if source.frozen || destination.frozen {
        Err(Failure::AccountFrozen)
    } else if source.owner != authority {
        Err(Failure::AuthorityMismatch)
    } else if source.amount < amount {
        Err(Failure::InsufficientFunds)
    } else if destination.amount + amount > u64::MAX {
        Err(Failure::Overflow)
    } else {
        Ok(
            (
                TokenAccount { amount: (source.amount - amount) as u64, ..source },
                TokenAccount { amount: (destination.amount + amount) as u64, ..destination },
            ),
        )
    }
}

/// Moves `amount` units from one holding account to another. The token layer
/// accepts it only from the owner of the source, and only while neither
/// account is frozen. A rejected call changes nothing.
pub fn transfer(
    source: &mut TokenAccount,
    destination: &mut TokenAccount,
    authority: &Address,
    amount: u64,
) -> (r: Result<(), Failure>)
    ensures
        match transferred(*old(source), *old(destination), *authority, amount) {
            Ok((s, d)) => r is Ok && *final(source) == s && *final(destination) == d,
            Err(e) => {
                &&& r == Err::<(), Failure>(e)
                &&& *final(source) == *old(source)
                &&& *final(destination) == *old(destination)
            },
        },
{
    if source.frozen || destination.frozen {
        return Err(Failure::AccountFrozen);
    }
    if source.owner != *authority {
        return Err(Failure::AuthorityMismatch);
    }
    if source.amount < amount {
        return Err(Failure::InsufficientFunds);
    }
    match destination.amount.checked_add(amount) {
        None => Err(Failure::Overflow),
        Some(total) => {
            source.amount = source.amount - amount;
            destination.amount = total;
            Ok(())
        },
    }
}

} // verus!
