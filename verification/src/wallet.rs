//! The funding wallet: the keypair that pays for a run and holds the
//! authority over the mint.

use vstd::prelude::*;
use solana_sdk::signer::Signer;
use solana_sdk::signer::keypair::Keypair;
use crate::address::Address;
use crate::address::bytes_of;

verus! {

/// The bytes that `serde_json::from_str` reads from `text` as an array of
/// bytes, or `None` where it reads no such array.
pub uninterp spec fn json_byte_array(text: Seq<char>) -> Option<Seq<u8>>;

/// The address of the keypair that `Keypair::from_bytes` recovers from
/// `bytes`, or `None` where it recovers none.
pub uninterp spec fn keypair_address(bytes: Seq<u8>) -> Option<Seq<u8>>;

/// Optional bytes seen as a sequence.
pub open spec fn seq_of(bytes: Option<Vec<u8>>) -> Option<Seq<u8>> {
    match bytes {
        Some(bytes) => Some(bytes@),
        None => None,
    }
}

/// Calls `serde_json::from_str` for a `Vec<u8>`. Trusted: the result is a
/// function of the text alone, named `json_byte_array`.
#[verifier::external_body]
fn parse_byte_array(text: &str) -> (r: Option<Vec<u8>>)
    ensures
        seq_of(r) == json_byte_array(text@),
{
    serde_json::from_str::<Vec<u8>>(text).ok()
}

/// Calls `Keypair::from_bytes` and takes the keypair's public address.
/// Trusted: the result is a function of the bytes alone, named
/// `keypair_address`.
#[verifier::external_body]
fn recover_address(bytes: &Vec<u8>) -> (r: Option<Address>)
    ensures
        bytes_of(r) == keypair_address(bytes@),
{
    Keypair::from_bytes(bytes).ok().map(|keypair| Address { bytes: keypair.pubkey().to_bytes() })
}

/// A wallet: the bytes of its keypair, and the address they stand for.
#[derive(Clone, Debug, PartialEq, Eq)]
pub struct Wallet {
    pub address: Address,
    pub keypair: Vec<u8>,
}

/// Why a wallet file is refused.
#[derive(Clone, Copy, Debug, PartialEq, Eq)]
pub enum WalletError {
    /// The file does not hold an array of bytes.
    Malformed,
    /// The bytes are not those of a keypair.
    InvalidKeypair,
}

/// Reads a wallet from the content of its file: an array of bytes in JSON,
/// which has to be a signing keypair.
pub fn read_wallet(content: &str) -> (r: Result<Wallet, WalletError>)
    ensures
        match r {
            Ok(wallet) => json_byte_array(content@) == Some(wallet.keypair@) && keypair_address(
                wallet.keypair@,
            ) == Some(wallet.address@),
            Err(WalletError::Malformed) => json_byte_array(content@).is_none(),
            Err(WalletError::InvalidKeypair) => match json_byte_array(content@) {
                Some(bytes) => keypair_address(bytes).is_none(),
                None => false,
            },
        },
{
    let keypair = match parse_byte_array(content) {
        Some(bytes) => bytes,
        None => {
            return Err(WalletError::Malformed);
        },
    };
    match recover_address(&keypair) {
        Some(address) => Ok(Wallet { address, keypair }),
        None => Err(WalletError::InvalidKeypair),
    }
}

} // verus!
