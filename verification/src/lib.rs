//! Mint-and-lock issuance of non-transferable membership passes.
//!
//! One invocation creates a new token class for the caller, mints exactly
//! one unit of it into the caller's holding account, freezes that account,
//! and records tier, expiry and owner in a membership record. In the
//! minimal form both capabilities of the token class are then revoked; in
//! the extended form a metadata record and a master edition are registered
//! instead. An invocation is one unit of work: it adds all of its records
//! to the ledger or none.

pub mod address;
pub mod error;
pub mod guarantees;
pub mod instructions;
pub mod ledger;
pub mod state;

use crate::address::{derive_keys, keys_of, Address, Programs};
use crate::error::Failure;
use crate::instructions::create_mint::{issue, outcome, Request};
use crate::ledger::{Account, Ledger};
use vstd::prelude::*;

verus! {

/// What `create_mint` by `user` makes of the ledger: the ledger with the
/// locked pass added at the addresses derived for `user`, or the failure
/// with which the invocation is rejected.
pub open spec fn create_mint_outcome(
    records: Map<Address, Account>,
    programs: Programs,
    user: Address,
    request: Request,
) -> Result<Map<Address, Account>, Failure> {
    match keys_of(programs, user) {
        None => Err(Failure::InvalidSeeds),
        Some(keys) => outcome(records, user, keys, request),
    }
}

/// Issues a pass to `user`: a new token class of which `user` holds the one
/// unit there will be, frozen in place, and a membership record of `tier`
/// that runs until `expiry`. With a registry among `programs`, `name`,
/// `symbol` and `uri` are registered as the metadata of the token class;
/// without one they are not used.
///
/// The addresses of all records follow from `user` and `programs`. The
/// invocation is rejected, and the ledger left as it was, with
/// `Failure::InvalidSeeds` where an address cannot be derived, with
/// `Failure::AccountAlreadyExists` where a record exists at one of them, and
/// with `Failure::MalformedInput` where the registry does not admit a text.
pub fn create_mint(
    ledger: &mut Ledger,
    programs: &Programs,
    user: Address,
    name: String,
    symbol: String,
    uri: String,
    tier: u8,
    expiry: i64,
) -> (r: Result<(), Failure>)
    ensures
        match create_mint_outcome(
            old(ledger)@,
            *programs,
            user,
            (Request { name, symbol, uri, tier, expiry }),
        ) {
            Ok(records) => r is Ok && final(ledger)@ == records,
            Err(e) => r == Err::<(), Failure>(e) && final(ledger)@ == old(ledger)@,
        },
{
    match derive_keys(programs, &user) {
        None => Err(Failure::InvalidSeeds),
        Some(keys) => issue(ledger, user, &keys, name, symbol, uri, tier, expiry),
    }
}

} // verus!

