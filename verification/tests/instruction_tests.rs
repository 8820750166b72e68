use solana_sdk::pubkey::Pubkey;
use token_airdrop::address::Address;
use token_airdrop::instruction::{
    create_associated_account, create_mint_account, initialize_mint, mint_account_space, mint_to,
    transfer, AccountMeta, Instruction, MINT_ACCOUNT_SPACE,
};

fn address(seed: u8) -> Address {
    Address::from_bytes([seed; 32])
}

fn key(seed: u8) -> Pubkey {
    Pubkey::new_from_array([seed; 32])
}

fn plain(ix: solana_sdk::instruction::Instruction) -> Instruction {
    Instruction {
        program_id: Address::from_bytes(ix.program_id.to_bytes()),
        accounts: ix
            .accounts
            .iter()
            .map(|meta| AccountMeta {
                address: Address::from_bytes(meta.pubkey.to_bytes()),
                is_signer: meta.is_signer,
                is_writable: meta.is_writable,
            })
            .collect(),
        data: ix.data,
    }
}

fn meta(address: Address, is_signer: bool, is_writable: bool) -> AccountMeta {
    AccountMeta { address, is_signer, is_writable }
}

#[test]
fn mint_account_space_is_the_packed_size_of_a_mint() {
    assert_eq!(mint_account_space(), 82);
    assert_eq!(MINT_ACCOUNT_SPACE, 82);
}

#[test]
fn create_mint_account_gives_the_account_to_the_token_program() {
    let built = create_mint_account(&address(1), &address(2), 1_461_600);
    let expected = solana_sdk::system_instruction::create_account(
        &key(1),
        &key(2),
        1_461_600,
        82,
        &spl_token::ID,
    );
    assert_eq!(built, plain(expected));
    assert_eq!(built.program_id, Address::from_bytes([0u8; 32]));
    assert_eq!(built.accounts, vec![meta(address(1), true, true), meta(address(2), true, true)]);
    let mut data = vec![0u8, 0, 0, 0];
    data.extend_from_slice(&1_461_600u64.to_le_bytes());
    data.extend_from_slice(&82u64.to_le_bytes());
    data.extend_from_slice(&spl_token::ID.to_bytes());
    assert_eq!(built.data, data);
}

#[test]
fn initialize_mint_names_one_authority_for_minting_and_freezing() {
    let built = initialize_mint(&address(2), &address(1), 0);
    let expected =
        spl_token::instruction::initialize_mint(&spl_token::ID, &key(2), &key(1), Some(&key(1)), 0)
            .unwrap();
    assert_eq!(built, plain(expected));
    assert_eq!(built.program_id, Address::from_bytes(spl_token::ID.to_bytes()));
    assert_eq!(built.accounts[0], meta(address(2), false, true));
    assert_eq!(built.accounts.len(), 2);
    let mut data = vec![0u8, 0];
    data.extend_from_slice(&[1u8; 32]);
    data.push(1);
    data.extend_from_slice(&[1u8; 32]);
    assert_eq!(built.data, data);
}

#[test]
fn create_associated_account_names_payer_account_owner_and_mint() {
    let built = create_associated_account(&address(1), &address(5), &address(2)).unwrap();
    let expected = spl_associated_token_account::instruction::create_associated_token_account(
        &key(1),
        &key(5),
        &key(2),
    );
    assert_eq!(built, plain(expected));
    let account = Address::associated_account(&address(5), &address(2)).unwrap();
    assert_eq!(built.program_id, Address::from_bytes(spl_associated_token_account::ID.to_bytes()));
    assert_eq!(built.accounts.len(), 6);
    assert_eq!(built.accounts[0], meta(address(1), true, true));
    assert_eq!(built.accounts[1], meta(account, false, true));
    assert_eq!(built.accounts[2], meta(address(5), false, false));
    assert_eq!(built.accounts[3], meta(address(2), false, false));
}

#[test]
fn mint_to_states_amount_and_decimals() {
    let built = mint_to(&address(2), &address(3), &address(1), 258, 0);
    let expected = spl_token::instruction::mint_to_checked(
        &spl_token::ID,
        &key(2),
        &key(3),
        &key(1),
        &[],
        258,
        0,
    )
    .unwrap();
    assert_eq!(built, plain(expected));
    assert_eq!(built.program_id, Address::from_bytes(spl_token::ID.to_bytes()));
    assert_eq!(
        built.accounts,
        vec![
            meta(address(2), false, true),
            meta(address(3), false, true),
            meta(address(1), true, false)
        ]
    );
    assert_eq!(built.data, vec![14u8, 2, 1, 0, 0, 0, 0, 0, 0, 0]);
}

#[test]
fn mint_to_differs_with_the_amount() {
    let two = mint_to(&address(2), &address(3), &address(1), 2, 0);
    let three = mint_to(&address(2), &address(3), &address(1), 3, 0);
    assert_ne!(two, three);
    assert_eq!(two.data, vec![14u8, 2, 0, 0, 0, 0, 0, 0, 0, 0]);
    assert_eq!(three.data, vec![14u8, 3, 0, 0, 0, 0, 0, 0, 0, 0]);
}

#[test]
fn transfer_states_amount_and_decimals() {
    let built = transfer(&address(3), &address(2), &address(4), &address(1), 1, 0);
    let expected = spl_token::instruction::transfer_checked(
        &spl_token::ID,
        &key(3),
        &key(2),
        &key(4),
        &key(1),
        &[],
        1,
        0,
    )
    .unwrap();
    assert_eq!(built, plain(expected));
    assert_eq!(
        built.accounts,
        vec![
            meta(address(3), false, true),
            meta(address(2), false, false),
            meta(address(4), false, true),
            meta(address(1), true, false)
        ]
    );
    assert_eq!(built.data, vec![12u8, 1, 0, 0, 0, 0, 0, 0, 0, 0]);
}
