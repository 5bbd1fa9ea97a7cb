//! The one instruction: issue a pass and lock it.
//!
//! The records of an invocation are worked on as values. The steps are
//! taken in a fixed order, and the first one that is rejected ends the
//! invocation with its failure; nothing of what was done before it is kept.

use crate::address::{Address, Keys};
use crate::error::Failure;
use crate::ledger::{Account, Ledger};
use crate::state::membership::Membership;
use crate::state::metadata::{
    admits, create_v1, registered, MasterEdition, Metadata, PrintSupply, TokenStandard,
};
use crate::state::token::{
    freeze_account, frozen, mint_to, minted, reassigned, set_authority, AuthorityType, Mint,
    TokenAccount,
};
use vstd::prelude::*;

verus! {

/// The two forms in which a pass is issued.
#[derive(Clone, Copy, Debug, PartialEq, Eq, Structural)]
pub enum Variant {
    /// Without descriptive metadata; both capabilities of the token class
    /// are revoked at the end.
    Minimal,
    /// With a metadata record and a master edition in the registry. The
    /// capabilities stay with the caller and are not revoked: the issuance
    /// never uses them again, but the caller still could, so in this form
    /// the freeze holds against everyone but the caller.
    Extended,
}

/// What the caller asks for.
#[derive(Clone, Debug, PartialEq, Eq)]
pub struct Request {
    pub name: String,
    pub symbol: String,
    pub uri: String,
    pub tier: u8,
    pub expiry: i64,
}

/// One step of the issuance.
#[derive(Clone, Copy, Debug, PartialEq, Eq, Structural)]
pub enum Step {
    /// Write owner, tier, expiry and bump into the membership record.
    RecordMembership,
    /// Mint `amount` units into the caller's holding account.
    MintTo { amount: u64 },
    /// Freeze the caller's holding account.
    FreezeAccount,
    /// Revoke the capability `kind` of the token class.
    RevokeAuthority { kind: AuthorityType },
    /// Register the texts of the request with the registry, and with them
    /// a master edition, on these terms.
    AttachMetadata {
        seller_fee_basis_points: u16,
        token_standard: TokenStandard,
        print_supply: PrintSupply,
    },
}

/// How far the issuance of a pass has come. Before allocation there are no
/// records and hence no stage. A pass only ever moves on to a later stage;
/// `Locked` and `MetadataAttached` are final.
#[derive(Clone, Copy, Debug, PartialEq, Eq, Structural)]
pub enum Stage {
    /// The token class exists and the holding account is empty.
    Allocated,
    /// The unit is in the holding account.
    Minted,
    /// The holding account is frozen.
    Frozen,
    /// Both capabilities of the token class are revoked.
    Locked,
    /// The registry holds the metadata of the token class.
    MetadataAttached,
}

impl Stage {
    /// Position of the stage in the course of an issuance. The two final
    /// stages stand side by side.
    pub open spec fn rank(self) -> nat {
        match self {
            Stage::Allocated => 0,
            Stage::Minted => 1,
            Stage::Frozen => 2,
            Stage::Locked => 3,
            Stage::MetadataAttached => 3,
        }
    }
}

/// The steps of an issuance, in the order in which they are taken. The
/// membership record is written first, so that a failure there comes before
/// any call into the token layer. Exactly one unit is minted, and it is
/// minted before the account is frozen and before the capability to mint is
/// given up. Metadata is attached last, to an asset whose supply is fixed:
/// as a non-fungible asset without seller fee, of which no print can be
/// made.
pub open spec fn plan_of(variant: Variant) -> Seq<Step> {
    match variant {
        Variant::Minimal => seq![
            Step::RecordMembership,
            Step::MintTo { amount: 1 },
            Step::FreezeAccount,
            Step::RevokeAuthority { kind: AuthorityType::MintTokens },
            Step::RevokeAuthority { kind: AuthorityType::FreezeAccount },
        ],
        Variant::Extended => seq![
            Step::RecordMembership,
            Step::MintTo { amount: 1 },
            Step::FreezeAccount,
            Step::AttachMetadata {
                seller_fee_basis_points: 0,
                token_standard: TokenStandard::NonFungible,
                print_supply: PrintSupply::Zero,
            },
        ],
    }
}

/// The steps of an issuance in order, for whoever carries them out.
pub fn plan(variant: Variant) -> (steps: Vec<Step>)
    ensures
        steps@ == plan_of(variant),
{
    let mut steps: Vec<Step> = Vec::new();
    steps.push(Step::RecordMembership);
    steps.push(Step::MintTo { amount: 1 });
    steps.push(Step::FreezeAccount);
    match variant {
        Variant::Minimal => {
            steps.push(Step::RevokeAuthority { kind: AuthorityType::MintTokens });
            steps.push(Step::RevokeAuthority { kind: AuthorityType::FreezeAccount });
        },
        Variant::Extended => {
            steps.push(
                Step::AttachMetadata {
                    seller_fee_basis_points: 0,
                    token_standard: TokenStandard::NonFungible,
                    print_supply: PrintSupply::Zero,
                },
            );
        },
    }
    assert(steps@ =~= plan_of(variant));
    steps
}

/// The records of one invocation.
#[derive(Clone, Debug, PartialEq, Eq)]
pub struct CreateMint {
    /// The form in which the pass is issued.
    pub variant: Variant,
    /// The caller, who signs the invocation.
    pub user: Address,
    /// The token class of the pass.
    pub mint: Mint,
    /// The caller's holding account for it.
    pub user_ata: TokenAccount,
    /// The registry's metadata record, once there is one.
    pub metadata: Option<Metadata>,
    /// The registry's master-edition record, once there is one.
    pub master_edition: Option<MasterEdition>,
    /// The membership record.
    pub membership: Membership,
    /// The bump that fixes the address of the membership record.
    pub membership_bump: u8,
}

impl CreateMint {
    /// The records as they stand when the invocation is entered: a token
    /// class at `mint` with both capabilities held by `user`, an empty
    /// holding account of `user`, a blank membership record, and nothing in
    /// the registry.
    pub open spec fn allocated(variant: Variant, user: Address, mint: Address, membership_bump: u8) -> CreateMint {
        CreateMint {
            variant,
            user,
            mint: Mint::allocated(user),
            user_ata: TokenAccount::provisioned(mint, user),
            metadata: None,
            master_edition: None,
            membership: Membership::blank(),
            membership_bump,
        }
    }

    /// Allocates the token class at `mint` and provisions the holding
    /// account and the membership record of `user`.
    pub fn allocate(variant: Variant, user: Address, mint: Address, membership_bump: u8) -> (ctx: CreateMint)
        ensures
            ctx == CreateMint::allocated(variant, user, mint, membership_bump),
    {
        CreateMint {
            variant,
            user,
            mint: Mint::new(user),
            user_ata: TokenAccount::new(mint, user),
            metadata: None,
            master_edition: None,
            membership: Membership::zeroed(),
            membership_bump,
        }
    }

    /// The stage that the records have reached.
    pub open spec fn stage_of(self) -> Stage {
        if self.metadata is Some {
            Stage::MetadataAttached
        } else if self.mint.locked() {
            Stage::Locked
        } else if self.user_ata.frozen {
            Stage::Frozen
        } else if self.user_ata.amount > 0 {
            Stage::Minted
        } else {
            Stage::Allocated
        }
    }

    /// The stage that the records have reached.
    pub fn stage(&self) -> (stage: Stage)
        ensures
            stage == self.stage_of(),
    {
        if self.metadata.is_some() {
            Stage::MetadataAttached
        } else if self.mint.mint_authority.is_none() && self.mint.freeze_authority.is_none() {
            Stage::Locked
        } else if self.user_ata.frozen {
            Stage::Frozen
        } else if self.user_ata.amount > 0 {
            Stage::Minted
        } else {
            Stage::Allocated
        }
    }

    /// The records after `step`, or the failure with which it is rejected.
    pub open spec fn after(self, step: Step, request: Request) -> Result<CreateMint, Failure> {
        match step {
            Step::RecordMembership => Ok(
                CreateMint {
                    membership: Membership {
                        owner: self.user,
                        tier: request.tier,
                        expiry: request.expiry,
                        bump: self.membership_bump,
                    },
                    ..self
                },
            ),
            Step::MintTo { amount } => match minted(self.mint, self.user_ata, self.user, amount) {
                Ok((mint, user_ata)) => Ok(CreateMint { mint, user_ata, ..self }),
                Err(e) => Err(e),
            },
            Step::FreezeAccount => match frozen(self.mint, self.user_ata, self.user) {
                Ok(user_ata) => Ok(CreateMint { user_ata, ..self }),
                Err(e) => Err(e),
            },
            Step::RevokeAuthority { kind } => match reassigned(self.mint, kind, self.user, None) {
                Ok(mint) => Ok(CreateMint { mint, ..self }),
                Err(e) => Err(e),
            },
            Step::AttachMetadata {
                seller_fee_basis_points,
                token_standard,
                print_supply,
            } => match registered(
                self.user_ata.mint,
                self.user,
                request.name,
                request.symbol,
                request.uri,
                seller_fee_basis_points,
                token_standard,
                print_supply,
            ) {
                Err(e) => Err(e),
                Ok((metadata, master_edition)) => if self.metadata is Some
                    || self.master_edition is Some {
                    Err(Failure::AccountAlreadyExists)
                } else {
                    Ok(
                        CreateMint {
                            metadata: Some(metadata),
                            master_edition: Some(master_edition),
                            ..self
                        },
                    )
                },
            },
        }
    }

    /// Takes `step` on the records. The caller is the authority for every
    /// call into the token layer, and the failures of the layers are handed
    /// on as they come.
    pub fn apply(self, step: Step, request: &Request) -> (r: Result<CreateMint, Failure>)
        ensures
            r == self.after(step, *request),
    {
        let mut ctx = self;
        match step {
            Step::RecordMembership => {
                ctx.membership = Membership::new(
                    ctx.user,
                    request.tier,
                    request.expiry,
                    ctx.membership_bump,
                );
                Ok(ctx)
            },
            Step::MintTo { amount } => {
                let user = ctx.user;
                match mint_to(&mut ctx.mint, &mut ctx.user_ata, &user, amount) {
                    Ok(()) => Ok(ctx),
                    Err(e) => Err(e),
                }
            },
            Step::FreezeAccount => {
                let user = ctx.user;
                let mint = ctx.mint;
                match freeze_account(&mint, &mut ctx.user_ata, &user) {
                    Ok(()) => Ok(ctx),
                    Err(e) => Err(e),
                }
            },
            Step::RevokeAuthority { kind } => {
                let user = ctx.user;
                match set_authority(&mut ctx.mint, kind, &user, None) {
                    Ok(()) => Ok(ctx),
                    Err(e) => Err(e),
                }
            },
            Step::AttachMetadata { seller_fee_basis_points, token_standard, print_supply } => {
                match create_v1(
                    ctx.user_ata.mint,
                    ctx.user,
                    request.name.clone(),
                    request.symbol.clone(),
                    request.uri.clone(),
                    seller_fee_basis_points,
                    token_standard,
                    print_supply,
                ) {
                    Err(e) => Err(e),
                    Ok((metadata, master_edition)) => {
                        if ctx.metadata.is_some() || ctx.master_edition.is_some() {
                            return Err(Failure::AccountAlreadyExists);
                        }
                        ctx.metadata = Some(metadata);
                        ctx.master_edition = Some(master_edition);
                        Ok(ctx)
                    },
                }
            },
        }
    }

    /// The records after `steps` were taken in order, or the failure of the
    /// first step that is rejected.
    pub open spec fn run(self, steps: Seq<Step>, request: Request) -> Result<CreateMint, Failure>
        decreases steps.len(),
    {
        if steps.len() == 0 {
            Ok(self)
        } else {
            match self.after(steps[0], request) {
                Ok(next) => next.run(steps.drop_first(), request),
                Err(e) => Err(e),
            }
        }
    }

    /// The records of a pass that was issued to `user` and locked.
    pub open spec fn issued(
        variant: Variant,
        user: Address,
        mint: Address,
        membership_bump: u8,
        request: Request,
    ) -> CreateMint {
        CreateMint {
            variant,
            user,
            mint: Mint {
                decimals: 0,
                mint_authority: if variant is Minimal {
                    None
                } else {
                    Some(user)
                },
                freeze_authority: if variant is Minimal {
                    None
                } else {
                    Some(user)
                },
                supply: 1,
            },
            user_ata: TokenAccount { mint, owner: user, amount: 1, frozen: true },
            metadata: if variant is Minimal {
                None
            } else {
                Some(
                    Metadata {
                        mint,
                        update_authority: user,
                        name: request.name,
                        symbol: request.symbol,
                        uri: request.uri,
                        seller_fee_basis_points: 0,
                        token_standard: TokenStandard::NonFungible,
                    },
                )
            },
            master_edition: if variant is Minimal {
                None
            } else {
                Some(
                    MasterEdition { mint, print_supply: PrintSupply::Zero },
                )
            },
            membership: Membership {
                owner: user,
                tier: request.tier,
                expiry: request.expiry,
                bump: membership_bump,
            },
            membership_bump,
        }
    }

    /// Whether the issuance goes through on freshly allocated records: in
    /// the minimal form always, in the extended form where the registry
    /// admits the texts.
    pub open spec fn accepted(variant: Variant, request: Request) -> bool {
        variant is Minimal || admits(request.name@, request.symbol@, request.uri@)
    }

    /// On freshly allocated records the issuance ends in the locked pass,
    /// unless the registry rejects the texts.
    pub proof fn lemma_run_allocated(
        variant: Variant,
        user: Address,
        mint: Address,
        membership_bump: u8,
        request: Request,
    )
        ensures
            CreateMint::allocated(variant, user, mint, membership_bump).run(
                plan_of(variant),
                request,
            ) == (if CreateMint::accepted(variant, request) {
                Ok::<CreateMint, Failure>(
                    CreateMint::issued(variant, user, mint, membership_bump, request),
                )
            } else {
                Err::<CreateMint, Failure>(Failure::MalformedInput)
            }),
    {
        let c0 = CreateMint::allocated(variant, user, mint, membership_bump);
        let p0 = plan_of(variant);
        let p1 = p0.drop_first();
        let p2 = p1.drop_first();
        let p3 = p2.drop_first();
        let p4 = p3.drop_first();
        reveal_with_fuel(CreateMint::run, 6);
        assert(p0[0] == Step::RecordMembership);
        assert(p1[0] == Step::MintTo { amount: 1 });
        assert(p2[0] == Step::FreezeAccount);
        match variant {
            Variant::Minimal => {
                assert(p3[0] == Step::RevokeAuthority { kind: AuthorityType::MintTokens });
                assert(p4[0] == Step::RevokeAuthority { kind: AuthorityType::FreezeAccount });
                assert(p4.drop_first().len() == 0);
            },
            Variant::Extended => {
                assert(p3[0] == Step::AttachMetadata {
                    seller_fee_basis_points: 0,
                    token_standard: TokenStandard::NonFungible,
                    print_supply: PrintSupply::Zero,
                });
                assert(p4.len() == 0);
            },
        }
    }
}

/// Issues the pass on the records of one invocation: writes the membership
/// record, mints one unit to the caller, freezes the holding account, and
/// then either revokes both capabilities of the token class or registers
/// its metadata. Returns the records as they stand at the end, or the
/// failure of the first step that is rejected.
pub fn handler(ctx: CreateMint, name: String, symbol: String, uri: String, tier: u8, expiry: i64) -> (r:
    Result<CreateMint, Failure>)
    ensures
        r == ctx.run(plan_of(ctx.variant), (Request { name, symbol, uri, tier, expiry })),
{
    let request = Request { name, symbol, uri, tier, expiry };
    let steps = plan(ctx.variant);
    let ghost whole = ctx.run(steps@, request);
    let mut records = ctx;
    let mut i: usize = 0;
    assert(steps@.skip(0) =~= steps@);
    while i < steps.len()
        invariant
            i <= steps.len(),
            whole == ctx.run(plan_of(ctx.variant), (Request { name, symbol, uri, tier, expiry })),
            whole == records.run(steps@.skip(i as int), request),
        decreases steps.len() - i,
    {
        proof {
            let rest = steps@.skip(i as int);
            assert(rest[0] == steps@[i as int]);
            assert(rest.drop_first() =~= steps@.skip(i + 1));
        }
        records = match records.apply(steps[i], &request) {
            Ok(next) => next,
            Err(e) => {
                return Err(e);
            },
        };
        i += 1;
    }
    assert(steps@.skip(i as int).len() == 0);
    Ok(records)
}

/// The form in which a pass is issued at `keys`: extended where the
/// registry has addresses among them.
pub open spec fn variant_of(keys: Keys) -> Variant {
    if keys.registry is Some {
        Variant::Extended
    } else {
        Variant::Minimal
    }
}

/// The addresses at which an invocation creates records, in the order in
/// which they are created.
pub open spec fn targets_of(keys: Keys) -> Seq<Address> {
    match keys.registry {
        None => seq![keys.mint, keys.user_ata, keys.membership],
        Some(registry) => seq![
            keys.mint,
            keys.user_ata,
            keys.membership,
            registry.metadata,
            registry.master_edition,
        ],
    }
}

/// Every record of the invocation can be created: no record exists at any
/// of its addresses, and no two of them share one.
pub open spec fn vacant(records: Map<Address, Account>, keys: Keys) -> bool {
    let targets = targets_of(keys);
    &&& forall|i: int| 0 <= i < targets.len() ==> !records.contains_key(#[trigger] targets[i])
    &&& forall|i: int, j: int| 0 <= i < j < targets.len() ==> targets[i] != targets[j]
}

/// The ledger with the records of a finished invocation added to it.
pub open spec fn settled(records: Map<Address, Account>, keys: Keys, ctx: CreateMint) -> Map<
    Address,
    Account,
> {
    let base = records.insert(keys.mint, Account::Mint(ctx.mint)).insert(
        keys.user_ata,
        Account::Token(ctx.user_ata),
    ).insert(keys.membership, Account::Membership(ctx.membership));
    match (keys.registry, ctx.metadata, ctx.master_edition) {
        (Some(registry), Some(metadata), Some(master_edition)) => base.insert(
            registry.metadata,
            Account::Metadata(metadata),
        ).insert(registry.master_edition, Account::MasterEdition(master_edition)),
        _ => base,
    }
}

/// What an invocation by `user` at `keys` makes of the ledger: the ledger
/// with the locked pass added, or the failure with which the invocation is
/// rejected as a whole.
pub open spec fn outcome(records: Map<Address, Account>, user: Address, keys: Keys, request: Request) -> Result<
    Map<Address, Account>,
    Failure,
> {
    if !vacant(records, keys) {
        Err(Failure::AccountAlreadyExists)
    } else if !CreateMint::accepted(variant_of(keys), request) {
        Err(Failure::MalformedInput)
    } else {
        Ok(
            settled(
                records,
                keys,
                CreateMint::issued(variant_of(keys), user, keys.mint, keys.membership_bump, request),
            ),
        )
    }
}

/// The addresses at which an invocation creates records.
fn targets(keys: &Keys) -> (r: Vec<Address>)
    ensures
        r@ == targets_of(*keys),
{
    let mut r: Vec<Address> = Vec::new();
    r.push(keys.mint);
    r.push(keys.user_ata);
    r.push(keys.membership);
    if let Some(registry) = keys.registry {
        r.push(registry.metadata);
        r.push(registry.master_edition);
    }
    assert(r@ =~= targets_of(*keys));
    r
}

/// Whether every record of an invocation at `keys` can be created.
pub fn is_vacant(ledger: &Ledger, keys: &Keys) -> (r: bool)
    ensures
        r == vacant(ledger@, *keys),
{
    let targets = targets(keys);
    let mut i: usize = 0;
    while i < targets.len()
        invariant
            i <= targets.len(),
            targets@ == targets_of(*keys),
            forall|a: int| 0 <= a < i ==> !ledger@.contains_key(#[trigger] targets[a]),
            forall|a: int, b: int| 0 <= a < b < i ==> targets[a] != targets[b],
        decreases targets.len() - i,
    {
        if ledger.contains(&targets[i]) {
            return false;
        }
        let mut j: usize = 0;
        while j < i
            invariant
                j <= i < targets.len(),
                targets@ == targets_of(*keys),
                forall|a: int| 0 <= a < j ==> targets[a] != targets[i as int],
            decreases i - j,
        {
            if targets[j] == targets[i] {
                return false;
            }
            j += 1;
        }
        i += 1;
    }
    true
}

/// Issues a pass to `user` with its records at `keys`, as one unit of work:
/// either every record of the locked pass is added to the ledger, or the
/// ledger stays as it was.
///
/// Rejected with `Failure::AccountAlreadyExists` where one of the addresses
/// is taken, and otherwise, in the extended form, with
/// `Failure::MalformedInput` where the registry does not admit the texts.
/// Tier and expiry are recorded as given.
pub fn issue(
    ledger: &mut Ledger,
    user: Address,
    keys: &Keys,
    name: String,
    symbol: String,
    uri: String,
    tier: u8,
    expiry: i64,
) -> (r: Result<(), Failure>)
    ensures
        match outcome(old(ledger)@, user, *keys, (Request { name, symbol, uri, tier, expiry })) {
            Ok(records) => r is Ok && final(ledger)@ == records,
            Err(e) => r == Err::<(), Failure>(e) && final(ledger)@ == old(ledger)@,
        },
{
    if !is_vacant(ledger, keys) {
        return Err(Failure::AccountAlreadyExists);
    }
    let variant = if keys.registry.is_some() {
        Variant::Extended
    } else {
        Variant::Minimal
    };
    proof {
        CreateMint::lemma_run_allocated(
            variant,
            user,
            keys.mint,
            keys.membership_bump,
            Request { name, symbol, uri, tier, expiry },
        );
    }
    let ctx = CreateMint::allocate(variant, user, keys.mint, keys.membership_bump);
    match handler(ctx, name, symbol, uri, tier, expiry) {
        Err(e) => Err(e),
        Ok(ctx) => settle(ledger, keys, ctx),
    }
}

/// Adds the records of a finished invocation to the ledger.
fn settle(ledger: &mut Ledger, keys: &Keys, ctx: CreateMint) -> (r: Result<(), Failure>)
    requires
        vacant(old(ledger)@, *keys),
    ensures
        r is Ok,
        final(ledger)@ == settled(old(ledger)@, *keys, ctx),
{
    proof {
        let t = targets_of(*keys);
        assert(t[0] == keys.mint && t[1] == keys.user_ata && t[2] == keys.membership);
        if let Some(registry) = keys.registry {
            assert(t[3] == registry.metadata && t[4] == registry.master_edition);
        }
    }
    match ledger.create(keys.mint, Account::Mint(ctx.mint)) {
        Ok(()) => {},
        Err(e) => {
            return Err(e);
        },
    }
    match ledger.create(keys.user_ata, Account::Token(ctx.user_ata)) {
        Ok(()) => {},
        Err(e) => {
            return Err(e);
        },
    }
    match ledger.create(keys.membership, Account::Membership(ctx.membership)) {
        Ok(()) => {},
        Err(e) => {
            return Err(e);
        },
    }
    match (keys.registry, ctx.metadata, ctx.master_edition) {
        (Some(registry), Some(metadata), Some(master_edition)) => {
            match ledger.create(registry.metadata, Account::Metadata(metadata)) {
                Ok(()) => {},
                Err(e) => {
                    return Err(e);
                },
            }
            ledger.create(registry.master_edition, Account::MasterEdition(master_edition))
        },
        _ => Ok(()),
    }
}

} // verus!
