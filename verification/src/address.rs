//! Identities and the deterministic derivation of record addresses.
//!
//! Every record an invocation creates lives at an address computed from
//! fixed tags and identities, so the same caller always arrives at the same
//! addresses and a second creation collides with the first.

use anchor_lang::prelude::Pubkey;
use vstd::array::{axiom_spec_array_update, spec_array_fill_for_copy_type, spec_array_update};
use vstd::prelude::*;
use vstd::slice::slice_to_vec;
use vstd::std_specs::cmp::PartialEqSpecImpl;
use vstd::string::StringSliceAdditionalSpecFns;

verus! {

/// Tag in the seeds of a token class.
pub const MINT_SEED: &'static str = "mint";

/// Tag in the seeds of a membership record.
pub const MEMBERSHIP_SEED: &'static str = "membership";

/// Tag in the seeds of the registry's records.
pub const METADATA_SEED: &'static str = "metadata";

/// Tag that sets the master-edition record apart from the metadata record.
pub const EDITION_SEED: &'static str = "edition";

/// A 32-byte identity: a caller, a program, or the address of a record.
#[derive(Clone, Copy, Debug, Eq, Hash)]
pub struct Address {
    pub bytes: [u8; 32],
}

impl View for Address {
    type V = Seq<u8>;

    open spec fn view(&self) -> Seq<u8> {
        self.bytes@
    }
}

impl PartialEq for Address {
    fn eq(&self, other: &Address) -> (r: bool) {
        let mut i: usize = 0;
        while i < 32
            invariant
                i <= 32,
                forall|j: int| 0 <= j < i ==> self.bytes[j] == other.bytes[j],
            decreases 32 - i,
        {
            if self.bytes[i] != other.bytes[i] {
                return false;
            }
            i += 1;
        }
        assert(self.bytes =~= other.bytes);
        true
    }
}

impl PartialEqSpecImpl for Address {
    open spec fn obeys_eq_spec() -> bool {
        true
    }

    open spec fn eq_spec(&self, other: &Address) -> bool {
        *self == *other
    }
}

impl Address {
    /// The identity made of `bytes`.
    pub fn new(bytes: [u8; 32]) -> (a: Address)
        ensures
            a.bytes == bytes,
    {
        Address { bytes }
    }

    /// The identity whose bytes are all zero.
    pub open spec fn zero() -> Address {
        address_of(Seq::new(32, |i: int| 0u8))
    }

    /// The identity whose bytes are all zero, as it stands in a record
    /// that nothing was written to.
    pub fn zeroed() -> (a: Address)
        ensures
            a == Address::zero(),
    {
        let a = Address { bytes: [0u8; 32] };
        proof {
            assert(a@ =~= Seq::new(32, |i: int| 0u8));
            Address::lemma_view_injective(Address::zero(), a);
        }
        a
    }

    /// The 32 bytes of the identity as a seed.
    pub fn to_seed(&self) -> (seed: Vec<u8>)
        ensures
            seed@ == self@,
    {
        slice_to_vec(self.bytes.as_slice())
    }

    /// Two identities with the same bytes are the same identity.
    pub proof fn lemma_view_injective(a: Address, b: Address)
        requires
            a@ == b@,
        ensures
            a == b,
    {
        assert(a.bytes =~= b.bytes);
    }
}

/// The identity whose bytes are `bytes`.
pub open spec fn address_of(bytes: Seq<u8>) -> Address {
    choose|a: Address| a@ == bytes
}

/// An array that agrees with `bytes` in its first `n` places.
spec fn filled(bytes: Seq<u8>, n: nat) -> [u8; 32]
    decreases n,
{
    if n == 0 {
        spec_array_fill_for_copy_type::<u8, 32>(0u8)
    } else {
        spec_array_update(filled(bytes, (n - 1) as nat), n - 1, bytes[n - 1])
    }
}

proof fn lemma_filled(bytes: Seq<u8>, n: nat)
    requires
        n <= 32,
        bytes.len() == 32,
    ensures
        forall|j: int| 0 <= j < n ==> filled(bytes, n)@[j] == bytes[j],
    decreases n,
{
    if n > 0 {
        lemma_filled(bytes, (n - 1) as nat);
        axiom_spec_array_update(filled(bytes, (n - 1) as nat), n - 1, bytes[n - 1]);
    }
}

/// Any 32 bytes are the bytes of an identity.
pub proof fn lemma_address_of(bytes: Seq<u8>)
    requires
        bytes.len() == 32,
    ensures
        address_of(bytes)@ == bytes,
{
    lemma_filled(bytes, 32);
    let witness = Address { bytes: filled(bytes, 32) };
    assert(witness@ =~= bytes);
}

/// The address and bump that the ledger derives for `seeds` under `program`,
/// if it derives one.
pub uninterp spec fn program_address(seeds: Seq<Seq<u8>>, program: Seq<u8>) -> Option<(Seq<u8>, u8)>;

/// Calls `Pubkey::try_find_program_address`. What it returns depends on the
/// seeds and the program identity alone; it is `None` where no bump yields an
/// address off the curve or the seeds exceed what the ledger admits.
#[verifier::external_body]
fn find_program_address(seeds: &Vec<Vec<u8>>, program: &Address) -> (r: Option<(Address, u8)>)
    ensures
        match r {
            Some((a, b)) => program_address(seeds.deep_view(), program@) == Some((a@, b)),
            None => program_address(seeds.deep_view(), program@) is None,
        },
{
    let parts: Vec<&[u8]> = seeds.iter().map(|s| s.as_slice()).collect();
    let found = Pubkey::try_find_program_address(&parts, &Pubkey::new_from_array(program.bytes));
    found.map(|(key, bump)| (Address { bytes: key.to_bytes() }, bump))
}

/// The derived address for `seeds` under `program`, as an identity.
pub open spec fn derived(seeds: Seq<Seq<u8>>, program: Address) -> Option<(Address, u8)> {
    match program_address(seeds, program@) {
        Some((bytes, bump)) => Some((address_of(bytes), bump)),
        None => None,
    }
}

/// Derives the address for `seeds` under `program`, with the bump that
/// fixes it.
pub fn derive_address(seeds: &Vec<Vec<u8>>, program: &Address) -> (r: Option<(Address, u8)>)
    ensures
        r == derived(seeds.deep_view(), *program),
{
    let r = find_program_address(seeds, program);
    proof {
        if let Some((a, _)) = r {
            Address::lemma_view_injective(address_of(a@), a);
        }
    }
    r
}

/// Seeds of the token class of `user`.
pub open spec fn mint_seeds(user: Address) -> Seq<Seq<u8>> {
    seq![MINT_SEED.spec_bytes(), user@]
}

/// Seeds of the holding account of `user` for the token class at `mint`.
pub open spec fn holding_seeds(user: Address, token_program: Address, mint: Address) -> Seq<Seq<u8>> {
    seq![user@, token_program@, mint@]
}

/// Seeds of the membership record of `user` for the token class at `mint`.
pub open spec fn membership_seeds(user: Address, mint: Address) -> Seq<Seq<u8>> {
    seq![MEMBERSHIP_SEED.spec_bytes(), user@, mint@]
}

/// Seeds of the metadata record that `registry` keeps for the token class
/// at `mint`.
pub open spec fn metadata_seeds(registry: Address, mint: Address) -> Seq<Seq<u8>> {
    seq![METADATA_SEED.spec_bytes(), registry@, mint@]
}

/// Seeds of the master-edition record that `registry` keeps for the token
/// class at `mint`.
pub open spec fn edition_seeds(registry: Address, mint: Address) -> Seq<Seq<u8>> {
    seq![METADATA_SEED.spec_bytes(), registry@, mint@, EDITION_SEED.spec_bytes()]
}

/// The UTF-8 bytes of a tag as a seed.
fn tag_seed(tag: &str) -> (seed: Vec<u8>)
    ensures
        seed@ == tag.spec_bytes(),
{
    slice_to_vec(tag.as_bytes())
}

/// The programs an invocation involves. Without a registry the pass is
/// issued in its minimal form; with one, rich metadata is attached.
#[derive(Clone, Copy, Debug, PartialEq, Eq)]
pub struct Programs {
    /// The issuing program, under which token classes and membership
    /// records are derived.
    pub program: Address,
    /// The token layer.
    pub token_program: Address,
    /// The program under which holding accounts are derived.
    pub associated_token_program: Address,
    /// The metadata registry, if one is used.
    pub metadata_program: Option<Address>,
}

/// Addresses of the registry's two records for one token class.
#[derive(Clone, Copy, Debug, PartialEq, Eq)]
pub struct RegistryKeys {
    pub metadata: Address,
    pub master_edition: Address,
}

/// Every address one invocation creates a record at.
#[derive(Clone, Copy, Debug, PartialEq, Eq)]
pub struct Keys {
    /// The token class.
    pub mint: Address,
    /// The caller's holding account.
    pub user_ata: Address,
    /// The membership record.
    pub membership: Address,
    /// The bump that fixes `membership`.
    pub membership_bump: u8,
    /// The registry's records, where a registry is used.
    pub registry: Option<RegistryKeys>,
}

/// The registry's addresses for the token class at `mint`.
pub open spec fn registry_keys_of(registry: Address, mint: Address) -> Option<RegistryKeys> {
    match (
        derived(metadata_seeds(registry, mint), registry),
        derived(edition_seeds(registry, mint), registry),
    ) {
        (Some((metadata, _)), Some((master_edition, _))) => Some(
            RegistryKeys { metadata, master_edition },
        ),
        _ => None,
    }
}

/// The addresses fixed for `user`: the token class from the caller, the
/// holding account and the membership record from caller and token class,
/// the registry's records from registry and token class. `None` where one
/// of them cannot be derived.
pub open spec fn keys_of(programs: Programs, user: Address) -> Option<Keys> {
    match derived(mint_seeds(user), programs.program) {
        None => None,
        Some((mint, _)) => match (
            derived(holding_seeds(user, programs.token_program, mint), programs.associated_token_program),
            derived(membership_seeds(user, mint), programs.program),
        ) {
            (Some((user_ata, _)), Some((membership, membership_bump))) => match programs.metadata_program {
                None => Some(Keys { mint, user_ata, membership, membership_bump, registry: None }),
                Some(registry) => match registry_keys_of(registry, mint) {
                    Some(keys) => Some(
                        Keys { mint, user_ata, membership, membership_bump, registry: Some(keys) },
                    ),
                    None => None,
                },
            },
            _ => None,
        },
    }
}

/// Derives the address of the token class of `user`.
pub fn derive_mint(program: &Address, user: &Address) -> (r: Option<(Address, u8)>)
    ensures
        r == derived(mint_seeds(*user), *program),
{
    let mut seeds: Vec<Vec<u8>> = Vec::new();
    seeds.push(tag_seed(MINT_SEED));
    seeds.push(user.to_seed());
    assert(seeds.deep_view() =~~= mint_seeds(*user));
    derive_address(&seeds, program)
}

/// Derives the address of the holding account of `user` for the token class
/// at `mint`.
pub fn derive_holding(
    associated_token_program: &Address,
    token_program: &Address,
    user: &Address,
    mint: &Address,
) -> (r: Option<(Address, u8)>)
    ensures
        r == derived(holding_seeds(*user, *token_program, *mint), *associated_token_program),
{
    let mut seeds: Vec<Vec<u8>> = Vec::new();
    seeds.push(user.to_seed());
    seeds.push(token_program.to_seed());
    seeds.push(mint.to_seed());
    assert(seeds.deep_view() =~~= holding_seeds(*user, *token_program, *mint));
    derive_address(&seeds, associated_token_program)
}

/// Derives the address of the membership record of `user` for the token
/// class at `mint`.
pub fn derive_membership(program: &Address, user: &Address, mint: &Address) -> (r: Option<(Address, u8)>)
    ensures
        r == derived(membership_seeds(*user, *mint), *program),
{
    let mut seeds: Vec<Vec<u8>> = Vec::new();
    seeds.push(tag_seed(MEMBERSHIP_SEED));
    seeds.push(user.to_seed());
    seeds.push(mint.to_seed());
    assert(seeds.deep_view() =~~= membership_seeds(*user, *mint));
    derive_address(&seeds, program)
}

/// Derives the addresses of the registry's records for the token class at
/// `mint`.
pub fn derive_registry_keys(registry: &Address, mint: &Address) -> (r: Option<RegistryKeys>)
    ensures
        r == registry_keys_of(*registry, *mint),
{
    let mut seeds: Vec<Vec<u8>> = Vec::new();
    seeds.push(tag_seed(METADATA_SEED));
    seeds.push(registry.to_seed());
    seeds.push(mint.to_seed());
    assert(seeds.deep_view() =~~= metadata_seeds(*registry, *mint));
    let metadata = derive_address(&seeds, registry);
    seeds.push(tag_seed(EDITION_SEED));
    assert(seeds.deep_view() =~~= edition_seeds(*registry, *mint));
    let master_edition = derive_address(&seeds, registry);
    match (metadata, master_edition) {
        (Some((metadata, _)), Some((master_edition, _))) => Some(
            RegistryKeys { metadata, master_edition },
        ),
        _ => None,
    }
}

/// Derives every address that an invocation by `user` creates a record at.
pub fn derive_keys(programs: &Programs, user: &Address) -> (r: Option<Keys>)
    ensures
        r == keys_of(*programs, *user),
{
    let mint = match derive_mint(&programs.program, user) {
        Some((mint, _)) => mint,
        None => {
            return None;
        },
    };
    let user_ata = derive_holding(
        &programs.associated_token_program,
        &programs.token_program,
        user,
        &mint,
    );
    let membership = derive_membership(&programs.program, user, &mint);
    match (user_ata, membership) {
        (Some((user_ata, _)), Some((membership, membership_bump))) => match programs.metadata_program {
            None => Some(Keys { mint, user_ata, membership, membership_bump, registry: None }),
            Some(registry) => match derive_registry_keys(&registry, &mint) {
                Some(keys) => Some(
                    Keys { mint, user_ata, membership, membership_bump, registry: Some(keys) },
                ),
                None => None,
            },
        },
        _ => None,
    }
}

} // verus!
