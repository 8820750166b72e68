//! Account addresses: 32 bytes, written in text as base58.
//!
//! The text form, and the derivation of the token account that belongs to an
//! owner and a mint, are the chain SDK's; this module states what the rest of
//! the library relies on and keeps an address as plain bytes.

use vstd::prelude::*;
use solana_sdk::pubkey::Pubkey;
use std::str::FromStr;

verus! {

/// The address of an account on the chain.
#[derive(Clone, Copy, Debug, PartialEq, Eq, Hash)]
pub struct Address {
    pub bytes: [u8; 32],
}

impl View for Address {
    type V = Seq<u8>;

    open spec fn view(&self) -> Seq<u8> {
        self.bytes@
    }
}

/// The bytes that `Pubkey::from_str` decodes from `text`, or `None` where it
/// rejects the text.
pub uninterp spec fn address_of_text(text: Seq<char>) -> Option<Seq<u8>>;

/// The text that `Pubkey`'s `Display` writes for the address `bytes`.
pub uninterp spec fn text_of_address(bytes: Seq<u8>) -> Seq<char>;

/// The address that `Pubkey::try_find_program_address` finds for the token
/// account of `owner` under `mint`, or `None` where it finds none.
pub uninterp spec fn associated_address(owner: Seq<u8>, mint: Seq<u8>) -> Option<Seq<u8>>;

/// `Option<Address>` seen as the optional bytes of the address.
pub open spec fn bytes_of(a: Option<Address>) -> Option<Seq<u8>> {
    match a {
        Some(a) => Some(a@),
        None => None,
    }
}

/// Calls `Pubkey::from_str`. Trusted: the result is a function of the text
/// alone, named `address_of_text`.
#[verifier::external_body]
fn pubkey_from_text(text: &str) -> (r: Option<Address>)
    ensures
        bytes_of(r) == address_of_text(text@),
{
    Pubkey::from_str(text).ok().map(|key| Address { bytes: key.to_bytes() })
}

/// Calls `Pubkey`'s `to_string`. Trusted: the result is a function of the
/// address alone, named `text_of_address`.
#[verifier::external_body]
fn pubkey_to_text(address: &Address) -> (r: String)
    ensures
        r@ == text_of_address(address@),
{
    Pubkey::new_from_array(address.bytes).to_string()
}

/// Calls `Pubkey::try_find_program_address` with the seeds of an associated
/// token account (owner, token program, mint) under the associated token
/// account program, and keeps the address. Trusted: the result is a function
/// of owner and mint alone, named `associated_address`.
#[verifier::external_body]
fn find_associated_address(owner: &Address, mint: &Address) -> (r: Option<Address>)
    ensures
        bytes_of(r) == associated_address(owner@, mint@),
{
    let token_program = spl_token::ID.to_bytes();
    let seeds: [&[u8]; 3] = [&owner.bytes, &token_program, &mint.bytes];
    Pubkey::try_find_program_address(&seeds, &spl_associated_token_account::ID)
        .map(|found| Address { bytes: found.0.to_bytes() })
}

impl Address {
    /// The address with the given bytes.
    pub fn from_bytes(bytes: [u8; 32]) -> (r: Address)
        ensures
            r.bytes == bytes,
    {
        Address { bytes }
    }

    /// Reads an address from its base58 text. `None` where the text is not
    /// the text of an address.
    pub fn parse(text: &str) -> (r: Option<Address>)
        ensures
            bytes_of(r) == address_of_text(text@),
    {
        pubkey_from_text(text)
    }

    /// The base58 text of the address.
    pub fn to_text(&self) -> (r: String)
        ensures
            r@ == text_of_address(self@),
    {
        pubkey_to_text(self)
    }

    /// The address of the token account that holds `mint` for `owner`,
    /// derived from the two. `None` where the derivation finds no address.
    pub fn associated_account(owner: &Address, mint: &Address) -> (r: Option<Address>)
        ensures
            bytes_of(r) == associated_address(owner@, mint@),
    {
        find_associated_address(owner, mint)
    }
}

/// Whether each of the first `n` of `found` is an address.
pub open spec fn all_found(found: Seq<Option<Address>>, n: int) -> bool {
    forall|i: int| 0 <= i < n ==> (#[trigger] found[i]).is_some()
}

/// The addresses of a list in which some may be missing: all of them, in
/// their order, where none is missing; else the place of the first that is.
pub fn collect(found: &Vec<Option<Address>>) -> (r: Result<Vec<Address>, usize>)
    ensures
        match r {
            Ok(addresses) => {
                &&& addresses.len() == found.len()
                &&& forall|i: int| 0 <= i < found.len() ==> found[i] == Some(#[trigger] addresses[i])
            },
            Err(index) => {
                &&& index < found.len()
                &&& found[index as int].is_none()
                &&& all_found(found@, index as int)
            },
        },
{
    let mut addresses: Vec<Address> = Vec::new();
    let mut i: usize = 0;
    while i < found.len()
        invariant
            0 <= i <= found.len(),
            addresses.len() == i,
            all_found(found@, i as int),
            forall|j: int| 0 <= j < i ==> found[j] == Some(#[trigger] addresses[j]),
        decreases found.len() - i,
    {
        match found[i] {
            Some(address) => {
                addresses.push(address);
            },
            None => {
                return Err(i);
            },
        }
        i = i + 1;
    }
    Ok(addresses)
}

} // verus!
