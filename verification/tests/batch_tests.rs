use token_airdrop::address::Address;
use token_airdrop::batch::{read_batch, recipients_of, BatchError};

const FIRST: &str = "TokenkegQfeZyiNwAJbNbGKPFXCWuBvf9Ss623VQ5DA";
const SECOND: &str = "ATokenGPvbdGVxr1b2hvZbsiqW5xWH25efTNsLJA8knL";
const THIRD: &str = "SysvarRent111111111111111111111111111111111";

fn address(text: &str) -> Address {
    Address::parse(text).unwrap()
}

fn entry(id: &str) -> String {
    format!("{{\"id\":\"{}\"}}", id)
}

fn batch(ids: &[&str]) -> String {
    let entries: Vec<String> = ids.iter().map(|id| entry(id)).collect();
    format!("[{}]", entries.join(","))
}

#[test]
fn read_batch_keeps_the_order_of_the_entries() {
    let content = batch(&[SECOND, FIRST, THIRD, FIRST]);
    assert_eq!(
        read_batch(&content),
        Ok(vec![address(SECOND), address(FIRST), address(THIRD), address(FIRST)])
    );
}

#[test]
fn read_batch_leaves_out_what_is_attached() {
    let content = format!(
        "[\n  {{\"nfts\": [{{\"id\": \"{}\"}}, {{\"id\": \"other\"}}], \"id\": \"{}\", \"rank\": 3}},\n  {{\"id\": \"{}\", \"nfts\": []}}\n]\n",
        THIRD, FIRST, SECOND
    );
    assert_eq!(read_batch(&content), Ok(vec![address(FIRST), address(SECOND)]));
    assert_eq!(read_batch(&content), read_batch(&batch(&[FIRST, SECOND])));
}

#[test]
fn one_invalid_address_fails_the_whole_batch() {
    assert_eq!(
        read_batch(&batch(&[FIRST, "Addr2", THIRD])),
        Err(BatchError::InvalidAddress { index: 1 })
    );
    assert_eq!(
        read_batch(&batch(&[FIRST, SECOND, ""])),
        Err(BatchError::InvalidAddress { index: 2 })
    );
    assert_eq!(
        read_batch("[{\"id\":\"Addr1\"},{\"id\":\"Addr2\"}]"),
        Err(BatchError::InvalidAddress { index: 0 })
    );
}

#[test]
fn the_error_names_the_first_invalid_entry() {
    assert_eq!(
        read_batch(&batch(&["x", FIRST, "y"])),
        Err(BatchError::InvalidAddress { index: 0 })
    );
    assert_eq!(
        read_batch(&batch(&[FIRST, "x", "y"])),
        Err(BatchError::InvalidAddress { index: 1 })
    );
}

#[test]
fn an_entry_without_an_address_fails_the_whole_batch() {
    let content = format!("[{},{{\"nfts\":[]}},{}]", entry(FIRST), entry(SECOND));
    assert_eq!(read_batch(&content), Err(BatchError::MissingAddress { index: 1 }));
    let content = format!("[{},{{\"id\":5}}]", entry(FIRST));
    assert_eq!(read_batch(&content), Err(BatchError::MissingAddress { index: 1 }));
    let content = format!("[{},{{\"id\":null}}]", entry(FIRST));
    assert_eq!(read_batch(&content), Err(BatchError::MissingAddress { index: 1 }));
    let content = format!("[\"{}\"]", FIRST);
    assert_eq!(read_batch(&content), Err(BatchError::MissingAddress { index: 0 }));
    assert_eq!(read_batch("[null]"), Err(BatchError::MissingAddress { index: 0 }));
    assert_eq!(read_batch("[[]]"), Err(BatchError::MissingAddress { index: 0 }));
    let content = format!("[{{\"ID\":\"{}\"}}]", FIRST);
    assert_eq!(read_batch(&content), Err(BatchError::MissingAddress { index: 0 }));
}

#[test]
fn a_missing_address_is_found_before_an_invalid_one() {
    let content = format!("[{},{{}},{}]", entry("bad"), entry(FIRST));
    assert_eq!(read_batch(&content), Err(BatchError::MissingAddress { index: 1 }));
}

#[test]
fn an_empty_batch_is_refused() {
    assert_eq!(read_batch("[]"), Err(BatchError::Empty));
    assert_eq!(read_batch(" [ ] "), Err(BatchError::Empty));
}

#[test]
fn what_is_no_json_array_is_refused() {
    assert_eq!(read_batch(""), Err(BatchError::Malformed));
    assert_eq!(read_batch("{}"), Err(BatchError::Malformed));
    assert_eq!(read_batch(&entry(FIRST)), Err(BatchError::Malformed));
    assert_eq!(read_batch("["), Err(BatchError::Malformed));
    assert_eq!(read_batch(&format!("[{}", entry(FIRST))), Err(BatchError::Malformed));
    assert_eq!(read_batch(&format!("[{},]", entry(FIRST))), Err(BatchError::Malformed));
    assert_eq!(read_batch(&format!("[{}] x", entry(FIRST))), Err(BatchError::Malformed));
    assert_eq!(read_batch(&format!("[{{'id':'{}'}}]", FIRST)), Err(BatchError::Malformed));
    assert_eq!(read_batch("null"), Err(BatchError::Malformed));
}

#[test]
fn an_address_may_be_written_with_escapes() {
    let content = "[{\"id\":\"\\u0054okenkegQfeZyiNwAJbNbGKPFXCWuBvf9Ss623VQ5DA\"}]";
    assert_eq!(read_batch(content), Ok(vec![address(FIRST)]));
}

#[test]
fn recipients_of_reads_the_addresses_in_order() {
    let ids = vec![Some(SECOND.to_string()), Some(FIRST.to_string())];
    assert_eq!(recipients_of(&ids), Ok(vec![address(SECOND), address(FIRST)]));
    assert_eq!(recipients_of(&Vec::new()), Err(BatchError::Empty));
    let ids = vec![Some(FIRST.to_string()), None, Some("bad".to_string())];
    assert_eq!(recipients_of(&ids), Err(BatchError::MissingAddress { index: 1 }));
    let ids = vec![Some("bad".to_string()), None];
    assert_eq!(recipients_of(&ids), Err(BatchError::MissingAddress { index: 1 }));
    let ids = vec![Some(FIRST.to_string()), Some("bad".to_string()), Some("worse".to_string())];
    assert_eq!(recipients_of(&ids), Err(BatchError::InvalidAddress { index: 1 }));
}
