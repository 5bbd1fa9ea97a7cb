//! The records that the metadata registry keeps for a token class.

use crate::address::Address;
use crate::error::Failure;
use anchor_spl::metadata::mpl_token_metadata::{MAX_NAME_LENGTH, MAX_SYMBOL_LENGTH, MAX_URI_LENGTH};
use vstd::prelude::*;
use vstd::utf8::encode_utf8;

verus! {

/// How the registry classifies an asset.
#[derive(Clone, Copy, Debug, PartialEq, Eq, Structural)]
pub enum TokenStandard {
    /// A unique asset with a master edition.
    NonFungible,
}

/// How many prints may be made of a master edition.
#[derive(Clone, Copy, Debug, PartialEq, Eq, Structural)]
pub enum PrintSupply {
    /// None: the master edition is the only edition there will be.
    Zero,
}

/// Descriptive fields of a token class. The registry creates the record
/// once; the protocol has no instruction that changes it.
#[derive(Clone, Debug, PartialEq, Eq)]
pub struct Metadata {
    /// Address of the token class the record describes.
    pub mint: Address,
    /// The identity that registered the record.
    pub update_authority: Address,
    pub name: String,
    pub symbol: String,
    pub uri: String,
    /// Share of a sale owed to the creators, in hundredths of a percent.
    pub seller_fee_basis_points: u16,
    pub token_standard: TokenStandard,
}

/// Companion of a metadata record: states that the token class is the one
/// edition of the asset.
#[derive(Clone, Copy, Debug, PartialEq, Eq)]
pub struct MasterEdition {
    /// Address of the token class.
    pub mint: Address,
    /// Prints that may be made.
    pub print_supply: PrintSupply,
}

/// Reads `mpl_token_metadata::MAX_NAME_LENGTH`, the number of bytes the
/// registry admits in a name: 32.
#[verifier::external_body]
fn max_name_length() -> (n: usize)
    ensures
        n == 32,
{
    MAX_NAME_LENGTH
}

/// Reads `mpl_token_metadata::MAX_SYMBOL_LENGTH`, the number of bytes the
/// registry admits in a symbol: 10.
#[verifier::external_body]
fn max_symbol_length() -> (n: usize)
    ensures
        n == 10,
{
    MAX_SYMBOL_LENGTH
}

/// Reads `mpl_token_metadata::MAX_URI_LENGTH`, the number of bytes the
/// registry admits in a URI: 200.
#[verifier::external_body]
fn max_uri_length() -> (n: usize)
    ensures
        n == 200,
{
    MAX_URI_LENGTH
}

/// The registry admits the three texts: none is longer, in bytes of UTF-8,
/// than its field allows.
pub open spec fn admits(name: Seq<char>, symbol: Seq<char>, uri: Seq<char>) -> bool {
    &&& encode_utf8(name).len() <= 32
    &&& encode_utf8(symbol).len() <= 10
    &&& encode_utf8(uri).len() <= 200
}

/// The records the registry creates for the token class at `mint`, or the
/// failure with which it rejects the texts.
pub open spec fn registered(
    mint: Address,
    authority: Address,
    name: String,
    symbol: String,
    uri: String,
    seller_fee_basis_points: u16,
    token_standard: TokenStandard,
    print_supply: PrintSupply,
) -> Result<(Metadata, MasterEdition), Failure> {
    if admits(name@, symbol@, uri@) {
        Ok(
            (
                Metadata {
                    mint,
                    update_authority: authority,
                    name,
                    symbol,
                    uri,
                    seller_fee_basis_points,
                    token_standard,
                },
                MasterEdition { mint, print_supply },
            ),
        )
    } else {
        Err(Failure::MalformedInput)
    }
}

/// Registers the descriptive fields of the token class at `mint` on behalf
/// of `authority`, and with them its master edition. Rejected with
/// `Failure::MalformedInput` where a text is longer than the registry
/// admits.
pub fn create_v1(
    mint: Address,
    authority: Address,
    name: String,
    symbol: String,
    uri: String,
    seller_fee_basis_points: u16,
    token_standard: TokenStandard,
    print_supply: PrintSupply,
) -> (r: Result<(Metadata, MasterEdition), Failure>)
    ensures
        r == registered(
            mint,
            authority,
            name,
            symbol,
            uri,
            seller_fee_basis_points,
            token_standard,
            print_supply,
        ),
{
    if name.as_str().as_bytes().len() > max_name_length() {
        return Err(Failure::MalformedInput);
    }
    if symbol.as_str().as_bytes().len() > max_symbol_length() {
        return Err(Failure::MalformedInput);
    }
    if uri.as_str().as_bytes().len() > max_uri_length() {
        return Err(Failure::MalformedInput);
    }
    Ok(
        (
            Metadata {
                mint,
                update_authority: authority,
                name,
                symbol,
                uri,
                seller_fee_basis_points,
                token_standard,
            },
            MasterEdition { mint, print_supply },
        ),
    )
}

} // verus!
