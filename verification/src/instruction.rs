//! Instructions for the system, token and associated token account programs.
//!
//! Each instruction is built by the program's own SDK function and kept here
//! as plain values: the program to call, the accounts it touches, its data.

use vstd::prelude::*;
use vstd::pervasive::unreached;
use solana_sdk::program_pack::Pack;
use solana_sdk::pubkey::Pubkey;
use crate::address::Address;
use crate::address::associated_address;

verus! {

/// One account that an instruction touches.
#[derive(Clone, Copy, Debug, PartialEq, Eq)]
pub struct AccountMeta {
    pub address: Address,
    pub is_signer: bool,
    pub is_writable: bool,
}

/// An instruction to one program.
#[derive(Clone, Debug, PartialEq, Eq)]
pub struct Instruction {
    pub program_id: Address,
    pub accounts: Vec<AccountMeta>,
    pub data: Vec<u8>,
}

/// What an `Instruction` holds.
pub struct InstructionView {
    pub program_id: Address,
    pub accounts: Seq<AccountMeta>,
    pub data: Seq<u8>,
}

impl View for Instruction {
    type V = InstructionView;

    open spec fn view(&self) -> InstructionView {
        InstructionView { program_id: self.program_id, accounts: self.accounts@, data: self.data@ }
    }
}

/// An optional instruction seen as what it holds.
pub open spec fn view_of(r: Option<Instruction>) -> Option<InstructionView> {
    match r {
        Some(ix) => Some(ix@),
        None => None,
    }
}

/// Bytes that a mint account occupies.
pub const MINT_ACCOUNT_SPACE: usize = 82;

/// The instruction that `system_instruction::create_account` builds to create
/// `account`, owned by the token program, paid for by `payer`.
pub uninterp spec fn create_account_instruction(
    payer: Seq<u8>,
    account: Seq<u8>,
    lamports: u64,
    space: u64,
) -> InstructionView;

/// The instruction that the token program's `initialize_mint` builds.
pub uninterp spec fn initialize_mint_instruction(
    mint: Seq<u8>,
    mint_authority: Seq<u8>,
    freeze_authority: Seq<u8>,
    decimals: u8,
) -> InstructionView;

/// The instruction that `create_associated_token_account` builds to create
/// the token account of `owner` for `mint`, paid for by `payer`.
pub uninterp spec fn create_associated_account_instruction(
    payer: Seq<u8>,
    owner: Seq<u8>,
    mint: Seq<u8>,
) -> InstructionView;

/// The instruction that the token program's `mint_to_checked` builds, signed
/// by `authority` alone.
pub uninterp spec fn mint_to_instruction(
    mint: Seq<u8>,
    account: Seq<u8>,
    authority: Seq<u8>,
    amount: u64,
    decimals: u8,
) -> InstructionView;

/// The instruction that the token program's `transfer_checked` builds, signed
/// by `authority` alone.
pub uninterp spec fn transfer_instruction(
    source: Seq<u8>,
    mint: Seq<u8>,
    destination: Seq<u8>,
    authority: Seq<u8>,
    amount: u64,
    decimals: u8,
) -> InstructionView;

/// Reads `Mint::LEN`, the packed size of a mint account. Trusted: the
/// constant is 82.
#[verifier::external_body]
fn mint_len() -> (r: usize)
    ensures
        r == MINT_ACCOUNT_SPACE,
{
    spl_token::state::Mint::LEN
}

/// Calls `system_instruction::create_account` with the token program as the
/// new account's owner. Trusted: the result is a function of the arguments
/// alone, named `create_account_instruction`.
#[verifier::external_body]
fn build_create_account(payer: &Address, account: &Address, lamports: u64, space: u64) -> (r: Instruction)
    ensures
        r@ == create_account_instruction(payer@, account@, lamports, space),
{
    let from = Pubkey::new_from_array(payer.bytes);
    let to = Pubkey::new_from_array(account.bytes);
    let ix = solana_sdk::system_instruction::create_account(&from, &to, lamports, space, &spl_token::ID);
    Instruction {
        program_id: Address { bytes: ix.program_id.to_bytes() },
        accounts: ix.accounts.iter().map(|m| AccountMeta {
            address: Address { bytes: m.pubkey.to_bytes() },
            is_signer: m.is_signer,
            is_writable: m.is_writable,
        }).collect(),
        data: ix.data,
    }
}

/// Calls the token program's `initialize_mint` with the token program's own
/// id. Trusted: the builder refuses only another program id, so it returns an
/// instruction, which is a function of the arguments alone, named
/// `initialize_mint_instruction`.
#[verifier::external_body]
fn build_initialize_mint(mint: &Address, mint_authority: &Address, freeze_authority: &Address, decimals: u8) -> (r: Option<Instruction>)
    ensures
        view_of(r) == Some(initialize_mint_instruction(mint@, mint_authority@, freeze_authority@, decimals)),
{
    let mint = Pubkey::new_from_array(mint.bytes);
    let authority = Pubkey::new_from_array(mint_authority.bytes);
    let freeze = Pubkey::new_from_array(freeze_authority.bytes);
    let built = spl_token::instruction::initialize_mint(&spl_token::ID, &mint, &authority, Some(&freeze), decimals);
    built.ok().map(|ix| Instruction {
        program_id: Address { bytes: ix.program_id.to_bytes() },
        accounts: ix.accounts.iter().map(|m| AccountMeta {
            address: Address { bytes: m.pubkey.to_bytes() },
            is_signer: m.is_signer,
            is_writable: m.is_writable,
        }).collect(),
        data: ix.data,
    })
}

/// Calls `create_associated_token_account` of the associated token account
/// program. Trusted: the builder derives the account's address and gives up
/// only where that derivation finds none, which `requires` leaves out; its
/// result is a function of the arguments alone, named
/// `create_associated_account_instruction`.
#[verifier::external_body]
pub(crate) fn build_create_associated_account(payer: &Address, owner: &Address, mint: &Address) -> (r: Instruction)
    requires
        associated_address(owner@, mint@).is_some(),
    ensures
        r@ == create_associated_account_instruction(payer@, owner@, mint@),
{
    let payer = Pubkey::new_from_array(payer.bytes);
    let owner = Pubkey::new_from_array(owner.bytes);
    let mint = Pubkey::new_from_array(mint.bytes);
    let ix = spl_associated_token_account::instruction::create_associated_token_account(&payer, &owner, &mint);
    Instruction {
        program_id: Address { bytes: ix.program_id.to_bytes() },
        accounts: ix.accounts.iter().map(|m| AccountMeta {
            address: Address { bytes: m.pubkey.to_bytes() },
            is_signer: m.is_signer,
            is_writable: m.is_writable,
        }).collect(),
        data: ix.data,
    }
}

/// Calls the token program's `mint_to_checked` with the token program's own
/// id and no further signers. Trusted: the builder refuses only another
/// program id, so it returns an instruction, which is a function of the
/// arguments alone, named `mint_to_instruction`.
#[verifier::external_body]
fn build_mint_to(mint: &Address, account: &Address, authority: &Address, amount: u64, decimals: u8) -> (r: Option<Instruction>)
    ensures
        view_of(r) == Some(mint_to_instruction(mint@, account@, authority@, amount, decimals)),
{
    let mint = Pubkey::new_from_array(mint.bytes);
    let account = Pubkey::new_from_array(account.bytes);
    let authority = Pubkey::new_from_array(authority.bytes);
    let built = spl_token::instruction::mint_to_checked(&spl_token::ID, &mint, &account, &authority, &[], amount, decimals);
    built.ok().map(|ix| Instruction {
        program_id: Address { bytes: ix.program_id.to_bytes() },
        accounts: ix.accounts.iter().map(|m| AccountMeta {
            address: Address { bytes: m.pubkey.to_bytes() },
            is_signer: m.is_signer,
            is_writable: m.is_writable,
        }).collect(),
        data: ix.data,
    })
}

/// Calls the token program's `transfer_checked` with the token program's own
/// id and no further signers. Trusted: the builder refuses only another
/// program id, so it returns an instruction, which is a function of the
/// arguments alone, named `transfer_instruction`.
#[verifier::external_body]
fn build_transfer(source: &Address, mint: &Address, destination: &Address, authority: &Address, amount: u64, decimals: u8) -> (r: Option<Instruction>)
    ensures
        view_of(r) == Some(transfer_instruction(source@, mint@, destination@, authority@, amount, decimals)),
{
    let from = Pubkey::new_from_array(source.bytes);
    let mint = Pubkey::new_from_array(mint.bytes);
    let to = Pubkey::new_from_array(destination.bytes);
    let authority = Pubkey::new_from_array(authority.bytes);
    let built = spl_token::instruction::transfer_checked(&spl_token::ID, &from, &mint, &to, &authority, &[], amount, decimals);
    built.ok().map(|ix| Instruction {
        program_id: Address { bytes: ix.program_id.to_bytes() },
        accounts: ix.accounts.iter().map(|m| AccountMeta {
            address: Address { bytes: m.pubkey.to_bytes() },
            is_signer: m.is_signer,
            is_writable: m.is_writable,
        }).collect(),
        data: ix.data,
    })
}

/// The instruction of a builder that is known to have returned one.
fn built(r: Option<Instruction>) -> (ix: Instruction)
    requires
        r.is_some(),
    ensures
        Some(ix) == r,
{
    match r {
        Some(ix) => ix,
        None => unreached(),
    }
}

/// Bytes to reserve for a new mint account.
pub fn mint_account_space() -> (r: usize)
    ensures
        r == MINT_ACCOUNT_SPACE,
{
    mint_len()
}

/// The instruction that creates the account `mint`, of the size of a mint and
/// owned by the token program, with `lamports` taken from `payer`.
pub fn create_mint_account(payer: &Address, mint: &Address, lamports: u64) -> (r: Instruction)
    ensures
        r@ == create_account_instruction(payer@, mint@, lamports, MINT_ACCOUNT_SPACE as u64),
{
    let space = mint_len();
    build_create_account(payer, mint, lamports, space as u64)
}

/// The instruction that initializes `mint` with the given decimals and with
/// `authority` as both its mint authority and its freeze authority.
pub fn initialize_mint(mint: &Address, authority: &Address, decimals: u8) -> (r: Instruction)
    ensures
        r@ == initialize_mint_instruction(mint@, authority@, authority@, decimals),
{
    built(build_initialize_mint(mint, authority, authority, decimals))
}

/// The instruction that creates the token account of `owner` for `mint`, paid
/// for by `payer`. `None` where no address can be derived for that account.
pub fn create_associated_account(payer: &Address, owner: &Address, mint: &Address) -> (r: Option<Instruction>)
    ensures
        r.is_some() == associated_address(owner@, mint@).is_some(),
        r matches Some(ix) ==> ix@ == create_associated_account_instruction(payer@, owner@, mint@),
{
    match Address::associated_account(owner, mint) {
        Some(_) => Some(build_create_associated_account(payer, owner, mint)),
        None => None,
    }
}

/// The instruction that mints `amount` units of `mint`, a token of the given
/// decimals, into `account`, on the authority of `authority`.
pub fn mint_to(mint: &Address, account: &Address, authority: &Address, amount: u64, decimals: u8) -> (r: Instruction)
    ensures
        r@ == mint_to_instruction(mint@, account@, authority@, amount, decimals),
{
    built(build_mint_to(mint, account, authority, amount, decimals))
}

/// The instruction that moves `amount` units of `mint`, a token of the given
/// decimals, from `source` to `destination`, on the authority of `authority`.
pub fn transfer(source: &Address, mint: &Address, destination: &Address, authority: &Address, amount: u64, decimals: u8) -> (r: Instruction)
    ensures
        r@ == transfer_instruction(source@, mint@, destination@, authority@, amount, decimals),
{
    built(build_transfer(source, mint, destination, authority, amount, decimals))
}

} // verus!
