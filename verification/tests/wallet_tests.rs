use solana_sdk::signer::keypair::keypair_from_seed;
use solana_sdk::signer::Signer;
use token_airdrop::address::Address;
use token_airdrop::wallet::{read_wallet, WalletError};

fn keypair_json(seed: u8) -> (String, Vec<u8>, Address) {
    let keypair = keypair_from_seed(&[seed; 32]).unwrap();
    let bytes = keypair.to_bytes().to_vec();
    let text = serde_json::to_string(&bytes).unwrap();
    (text, bytes, Address::from_bytes(keypair.pubkey().to_bytes()))
}

#[test]
fn read_wallet_recovers_keypair_and_address() {
    let (text, bytes, address) = keypair_json(3);
    let wallet = read_wallet(&text).unwrap();
    assert_eq!(wallet.keypair, bytes);
    assert_eq!(wallet.keypair.len(), 64);
    assert_eq!(wallet.address, address);
    let (_, _, other) = keypair_json(4);
    assert_ne!(wallet.address, other);
}

#[test]
fn read_wallet_takes_white_space_in_the_array() {
    let (_, bytes, address) = keypair_json(5);
    let spaced: Vec<String> = bytes.iter().map(|b| format!(" {} ", b)).collect();
    let text = format!("[{}]\n", spaced.join(",\n"));
    let wallet = read_wallet(&text).unwrap();
    assert_eq!(wallet.keypair, bytes);
    assert_eq!(wallet.address, address);
}

#[test]
fn read_wallet_refuses_what_is_no_byte_array() {
    assert_eq!(read_wallet(""), Err(WalletError::Malformed));
    assert_eq!(read_wallet("{}"), Err(WalletError::Malformed));
    assert_eq!(read_wallet("[1, 2, 256]"), Err(WalletError::Malformed));
    assert_eq!(read_wallet("[1, 2, -1]"), Err(WalletError::Malformed));
    assert_eq!(read_wallet("[1, 2"), Err(WalletError::Malformed));
    assert_eq!(read_wallet("\"abc\""), Err(WalletError::Malformed));
}

#[test]
fn read_wallet_refuses_bytes_that_are_no_keypair() {
    assert_eq!(read_wallet("[]"), Err(WalletError::InvalidKeypair));
    assert_eq!(read_wallet("[1, 2, 3]"), Err(WalletError::InvalidKeypair));
    let (_, bytes, _) = keypair_json(6);
    let short = serde_json::to_string(&bytes[..63].to_vec()).unwrap();
    assert_eq!(read_wallet(&short), Err(WalletError::InvalidKeypair));
    let mut mismatched = bytes.clone();
    let (_, other, _) = keypair_json(7);
    mismatched[32..].copy_from_slice(&other[32..]);
    let text = serde_json::to_string(&mismatched).unwrap();
    assert_eq!(read_wallet(&text), Err(WalletError::InvalidKeypair));
}
