//! What holds of every invocation, stated over the outcome of an
//! invocation and the rules of the token layer.

use crate::address::{keys_of, Address, Keys, Programs};
use crate::create_mint_outcome;
use crate::error::Failure;
use crate::instructions::create_mint::{
    outcome, plan_of, targets_of, vacant, CreateMint, Request, Stage, Step, Variant,
};
use crate::ledger::Account;
use crate::state::membership::Membership;
use crate::state::metadata::admits;
use crate::state::token::{minted, thawed, transferred, AuthorityType, Mint, TokenAccount};
use vstd::prelude::*;

verus! {

/// The holding account of a locked pass: one unit of the token class at
/// `mint`, owned by `user`, frozen.
pub open spec fn locked_holding(user: Address, mint: Address) -> TokenAccount {
    TokenAccount { mint, owner: user, amount: 1, frozen: true }
}

/// After a successful invocation the caller's holding account holds exactly
/// one unit and is frozen, and exactly one unit of the token class exists.
pub proof fn lemma_one_unit_held_frozen(
    records: Map<Address, Account>,
    user: Address,
    keys: Keys,
    request: Request,
)
    requires
        outcome(records, user, keys, request) is Ok,
    ensures
        outcome(records, user, keys, request)->Ok_0[keys.user_ata] == Account::Token(
            locked_holding(user, keys.mint),
        ),
        outcome(records, user, keys, request)->Ok_0[keys.mint] matches Account::Mint(mint)
            && mint.supply == 1 && mint.decimals == 0,
{
    lemma_targets(keys);
}

/// The addresses of an invocation, by position.
proof fn lemma_targets(keys: Keys)
    ensures
        targets_of(keys)[0] == keys.mint,
        targets_of(keys)[1] == keys.user_ata,
        targets_of(keys)[2] == keys.membership,
        keys.registry matches Some(registry) ==> targets_of(keys)[3] == registry.metadata
            && targets_of(keys)[4] == registry.master_edition,
{
}

/// The token layer accepts no change of the balance of a locked pass:
/// nothing can be minted into its holding account, whoever asks and of
/// whatever token class, and nothing can be moved out of it or into it.
pub proof fn lemma_locked_balance_is_fixed(
    user: Address,
    mint_key: Address,
    mint: Mint,
    other: TokenAccount,
    authority: Address,
    amount: u64,
)
    ensures
        minted(mint, locked_holding(user, mint_key), authority, amount) is Err,
        transferred(locked_holding(user, mint_key), other, authority, amount) is Err,
        transferred(other, locked_holding(user, mint_key), authority, amount) is Err,
{
}

/// In the minimal form both capabilities of the token class are revoked
/// when the invocation has succeeded.
pub proof fn lemma_minimal_pass_is_locked(
    records: Map<Address, Account>,
    user: Address,
    keys: Keys,
    request: Request,
)
    requires
        keys.registry is None,
        outcome(records, user, keys, request) is Ok,
    ensures
        outcome(records, user, keys, request)->Ok_0[keys.mint] matches Account::Mint(mint)
            && mint.locked(),
{
    lemma_targets(keys);
}

/// The freeze of a pass cannot be lifted: in the minimal form by nobody,
/// in the extended form by nobody but the caller, with whom the capability
/// to freeze and thaw stays.
pub proof fn lemma_freeze_stays(
    records: Map<Address, Account>,
    user: Address,
    keys: Keys,
    request: Request,
    authority: Address,
)
    requires
        outcome(records, user, keys, request) is Ok,
        keys.registry is None || authority != user,
    ensures
        outcome(records, user, keys, request)->Ok_0[keys.mint] matches Account::Mint(mint)
            && thawed(mint, locked_holding(user, keys.mint), authority) is Err,
{
    lemma_targets(keys);
}

/// After a successful invocation the membership record stands at its
/// address with the caller as owner and with tier and expiry as they were
/// given.
pub proof fn lemma_membership_recorded(
    records: Map<Address, Account>,
    user: Address,
    keys: Keys,
    request: Request,
)
    requires
        outcome(records, user, keys, request) is Ok,
    ensures
        outcome(records, user, keys, request)->Ok_0[keys.membership] == Account::Membership(
            Membership {
                owner: user,
                tier: request.tier,
                expiry: request.expiry,
                bump: keys.membership_bump,
            },
        ),
{
    lemma_targets(keys);
}

/// No invocation changes or removes a record that exists: whatever is in
/// the ledger is there, unchanged, after any later invocation, accepted or
/// rejected.
pub proof fn lemma_records_persist(
    records: Map<Address, Account>,
    user: Address,
    keys: Keys,
    request: Request,
    key: Address,
)
    requires
        records.contains_key(key),
    ensures
        outcome(records, user, keys, request) matches Ok(after) ==> after.contains_key(key)
            && after[key] == records[key],
{
    lemma_targets(keys);
    if vacant(records, keys) {
        let t = targets_of(keys);
        assert(!records.contains_key(t[0]));
        assert(!records.contains_key(t[1]));
        assert(!records.contains_key(t[2]));
        if keys.registry is Some {
            assert(!records.contains_key(t[3]));
            assert(!records.contains_key(t[4]));
        }
    }
}

/// A second invocation at the same addresses is rejected because they are
/// taken, whatever it asks for.
pub proof fn lemma_second_issue_rejected(
    records: Map<Address, Account>,
    user: Address,
    keys: Keys,
    first: Request,
    second: Request,
)
    requires
        outcome(records, user, keys, first) is Ok,
    ensures
        outcome(outcome(records, user, keys, first)->Ok_0, user, keys, second) == Err::<
            Map<Address, Account>,
            Failure,
        >(Failure::AccountAlreadyExists),
{
    lemma_targets(keys);
    let after = outcome(records, user, keys, first)->Ok_0;
    assert(after.contains_key(targets_of(keys)[0]));
}

/// The same caller cannot have a second pass issued: the addresses follow
/// from the caller, so the second invocation finds them taken.
pub proof fn lemma_one_pass_per_caller(
    records: Map<Address, Account>,
    programs: Programs,
    user: Address,
    first: Request,
    second: Request,
)
    requires
        create_mint_outcome(records, programs, user, first) is Ok,
    ensures
        create_mint_outcome(
            create_mint_outcome(records, programs, user, first)->Ok_0,
            programs,
            user,
            second,
        ) == Err::<Map<Address, Account>, Failure>(Failure::AccountAlreadyExists),
{
    lemma_second_issue_rejected(records, user, keys_of(programs, user)->Some_0, first, second);
}

/// An invocation whose texts the registry rejects fails as a whole: no
/// token class is minted, frozen or locked, and no record is created. The
/// caller learns of the texts unless an address was taken to begin with.
pub proof fn lemma_rejected_texts_reject_all(
    records: Map<Address, Account>,
    user: Address,
    keys: Keys,
    request: Request,
)
    requires
        keys.registry is Some,
        !admits(request.name@, request.symbol@, request.uri@),
    ensures
        outcome(records, user, keys, request) == Err::<Map<Address, Account>, Failure>(
            if vacant(records, keys) {
                Failure::MalformedInput
            } else {
                Failure::AccountAlreadyExists
            },
        ),
{
}

/// The order of the steps matters: once a capability is revoked, the step
/// that needs it is rejected, so nothing can be minted after the capability
/// to mint is given up, and nothing frozen after the capability to freeze.
pub proof fn lemma_revoked_capability_is_gone(
    ctx: CreateMint,
    kind: AuthorityType,
    amount: u64,
    request: Request,
)
    requires
        ctx.after(Step::RevokeAuthority { kind }, request) is Ok,
    ensures
        ({
            let revoked = ctx.after(Step::RevokeAuthority { kind }, request)->Ok_0;
            match kind {
                AuthorityType::MintTokens => revoked.after(Step::MintTo { amount }, request)
                    == Err::<CreateMint, Failure>(Failure::AuthorityMismatch),
                AuthorityType::FreezeAccount => revoked.after(Step::FreezeAccount, request)
                    == Err::<CreateMint, Failure>(Failure::AuthorityMismatch),
            }
        }),
{
}

/// Every holding account in the ledger holds exactly one unit and is
/// frozen, and of every token class exactly one unit exists, undivided.
pub open spec fn passes_locked(records: Map<Address, Account>) -> bool {
    forall|key: Address| #[trigger]
        records.contains_key(key) ==> match records[key] {
            Account::Token(account) => account.amount == 1 && account.frozen,
            Account::Mint(mint) => mint.supply == 1 && mint.decimals == 0,
            _ => true,
        }
}

/// A ledger that only invocations have written to holds nothing but locked
/// passes: that is so of the empty ledger, and every invocation, accepted
/// or rejected, keeps it so.
pub proof fn lemma_passes_stay_locked(
    records: Map<Address, Account>,
    user: Address,
    keys: Keys,
    request: Request,
)
    requires
        passes_locked(records),
    ensures
        passes_locked(Map::<Address, Account>::empty()),
        outcome(records, user, keys, request) matches Ok(after) ==> passes_locked(after),
{
    lemma_targets(keys);
}

/// No step takes the records of an invocation back to an earlier stage.
pub proof fn lemma_steps_move_forward(ctx: CreateMint, step: Step, request: Request)
    requires
        ctx.after(step, request) is Ok,
    ensures
        ctx.after(step, request)->Ok_0.stage_of().rank() >= ctx.stage_of().rank(),
{
}

/// An issuance starts on allocated records, and where it goes through it
/// ends in a final stage: locked in the minimal form, with metadata
/// attached in the extended form.
pub proof fn lemma_issuance_reaches_final_stage(
    variant: Variant,
    user: Address,
    mint: Address,
    membership_bump: u8,
    request: Request,
)
    ensures
        CreateMint::allocated(variant, user, mint, membership_bump).stage_of() == Stage::Allocated,
        CreateMint::allocated(variant, user, mint, membership_bump).run(plan_of(variant), request)
            matches Ok(ctx) ==> ctx.stage_of() == (if variant is Minimal {
            Stage::Locked
        } else {
            Stage::MetadataAttached
        }),
{
    CreateMint::lemma_run_allocated(variant, user, mint, membership_bump, request);
}

} // verus!
