use token_airdrop::address::Address;
use token_airdrop::cache::read::{chars_of, parse};
use token_airdrop::cache::{cache_path, create_cache, render, CacheFile};
use token_airdrop::json::{push_quoted, read_literal};
use token_airdrop::record::{RunResult, TransferRecord};
use token_airdrop::run::Run;
use token_airdrop::state::Event;

fn record(pubkey: &str, signature: &str, amount: Option<u64>) -> TransferRecord {
    TransferRecord { pubkey: pubkey.to_string(), signature: signature.to_string(), amount }
}

fn quoted(text: &str) -> String {
    let mut out = String::new();
    push_quoted(&mut out, text);
    out
}

#[test]
fn render_writes_the_fields_in_their_order() {
    let result = RunResult::new(
        "M".to_string(),
        vec![record("Addr1", "S1", None), record("Addr2", "S2", None)],
    );
    assert_eq!(
        render(&result),
        "{\"token_mint\":\"M\",\"tokens_amount\":2,\"pubkeys_and_signatures\":[{\"pubkey\":\"Addr1\",\"amount\":null,\"signature\":\"S1\"},{\"pubkey\":\"Addr2\",\"amount\":null,\"signature\":\"S2\"}]}"
    );
}

#[test]
fn render_writes_a_known_amount_as_a_number() {
    let result = RunResult::new("M".to_string(), vec![record("Addr1", "S1", Some(1))]);
    assert_eq!(
        render(&result),
        "{\"token_mint\":\"M\",\"tokens_amount\":1,\"pubkeys_and_signatures\":[{\"pubkey\":\"Addr1\",\"amount\":1,\"signature\":\"S1\"}]}"
    );
    let result = RunResult::new("M".to_string(), vec![record("A", "S", Some(u64::MAX))]);
    assert!(render(&result).contains("\"amount\":18446744073709551615,"));
}

#[test]
fn render_writes_an_empty_list() {
    let result = RunResult::new("M".to_string(), Vec::new());
    assert_eq!(
        render(&result),
        "{\"token_mint\":\"M\",\"tokens_amount\":0,\"pubkeys_and_signatures\":[]}"
    );
}

#[test]
fn new_counts_the_records() {
    let records = vec![record("a", "1", None), record("b", "2", Some(4)), record("c", "3", None)];
    let result = RunResult::new("mint".to_string(), records.clone());
    assert_eq!(result.token_mint, "mint");
    assert_eq!(result.tokens_amount, 3);
    assert_eq!(result.pubkeys_and_signatures, records);
}

#[test]
fn a_run_from_batch_to_cache_file() {
    let wallet = Address::from_bytes([1u8; 32]);
    let mint = Address::from_bytes([2u8; 32]);
    let batch = vec![Address::from_bytes([11u8; 32]), Address::from_bytes([12u8; 32])];
    let mut run = Run::begin(wallet, mint, None, &batch, false).unwrap();
    let events = vec![
        Event::Rent(Some(1_461_600)),
        Event::Confirmed("create".to_string()),
        Event::Confirmed("initialize".to_string()),
        Event::Confirmed("associate".to_string()),
        Event::Confirmed("mint".to_string()),
        Event::Confirmed("account 1".to_string()),
        Event::Confirmed("S1".to_string()),
        Event::Rejected,
        Event::Confirmed("S2".to_string()),
    ];
    for event in events {
        run = run.advance(event).0;
    }
    let result = run.finish().unwrap();
    let expected = format!(
        "{{\"token_mint\":\"{}\",\"tokens_amount\":2,\"pubkeys_and_signatures\":[{{\"pubkey\":\"{}\",\"amount\":null,\"signature\":\"S1\"}},{{\"pubkey\":\"{}\",\"amount\":null,\"signature\":\"S2\"}}]}}",
        mint.to_text(),
        batch[0].to_text(),
        batch[1].to_text()
    );
    assert_eq!(render(&result), expected);
    assert_eq!(cache_path("src/cache", "drop1.json"), "src/cache/drop1.json");
}

#[test]
fn the_cache_file_is_json_that_holds_what_was_passed_in() {
    let records = vec![
        record("Addr1", "S1", None),
        record("Addr \"2\"", "S\\2\n", Some(7)),
        record("", "\u{1}\u{1f}\u{7f}\u{e9}\u{1F600}", Some(0)),
    ];
    let result = RunResult::new("the\tmint".to_string(), records.clone());
    let value: serde_json::Value = serde_json::from_str(&render(&result)).unwrap();
    assert_eq!(value["token_mint"].as_str(), Some("the\tmint"));
    assert_eq!(value["tokens_amount"].as_u64(), Some(3));
    let list = value["pubkeys_and_signatures"].as_array().unwrap();
    assert_eq!(list.len(), 3);
    for (entry, record) in list.iter().zip(records.iter()) {
        assert_eq!(entry["pubkey"].as_str(), Some(record.pubkey.as_str()));
        assert_eq!(entry["signature"].as_str(), Some(record.signature.as_str()));
        assert_eq!(entry["amount"].as_u64(), record.amount);
        assert_eq!(entry["amount"].is_null(), record.amount.is_none());
        assert_eq!(entry.as_object().unwrap().len(), 3);
    }
    assert_eq!(value.as_object().unwrap().len(), 3);
}

#[test]
fn parse_gives_back_what_render_wrote() {
    let results = vec![
        RunResult::new("M".to_string(), Vec::new()),
        RunResult::new("M".to_string(), vec![record("Addr1", "S1", None)]),
        RunResult::new(
            "So11111111111111111111111111111111111111112".to_string(),
            vec![
                record("Addr1", "S1", None),
                record("Addr \"2\"", "S\\2\n", Some(7)),
                record("", "\u{1}\u{8}\u{c}\r\t\u{1f}\u{7f}\u{e9}\u{1F600}/", Some(u64::MAX)),
                record("]},{", ",\"amount\":null", Some(0)),
            ],
        ),
        RunResult {
            token_mint: String::new(),
            tokens_amount: 9,
            pubkeys_and_signatures: vec![record("a", "b", Some(10))],
        },
    ];
    for result in results {
        assert_eq!(parse(&render(&result)), Some(result));
    }
}

#[test]
fn parse_refuses_what_render_does_not_write() {
    let good = render(&RunResult::new("M".to_string(), vec![record("A", "S", Some(1))]));
    assert!(parse(&good).is_some());
    assert_eq!(parse(""), None);
    assert_eq!(parse("{}"), None);
    assert_eq!(parse(&good[..good.len() - 1]), None);
    assert_eq!(parse(&format!("{} ", good)), None);
    assert_eq!(parse(&format!(" {}", good)), None);
    assert_eq!(parse(&good.replace("\"amount\":1", "\"amount\":-1")), None);
    assert_eq!(parse(&good.replace("\"amount\":1", "\"amount\":true")), None);
    assert_eq!(parse(&good.replace("\"amount\":1", "\"amount\":18446744073709551616")), None);
    assert_eq!(parse(&good.replace("\"pubkey\"", "\"address\"")), None);
    assert_eq!(parse(&good.replace("[{", "[,{")), None);
    assert_eq!(parse(&good.replace("}]", "},]")), None);
    assert_eq!(parse(&good.replace("\"S\"", "\"S")), None);
    assert_eq!(parse(&good.replace("\"S\"", "\"\\x\"")), None);
    assert_eq!(parse(&good.replace("\"S\"", "\"\u{1}\"")), None);
}

#[test]
fn string_literals_are_written_as_the_json_library_writes_them() {
    let texts = [
        "",
        "Addr1",
        "So11111111111111111111111111111111111111112",
        "a\"b",
        "a\\b",
        "/",
        "\u{8}\u{c}\n\r\t",
        "\u{0}\u{1}\u{b}\u{e}\u{1f}",
        " \u{7f}\u{80}\u{e9}\u{2028}\u{1F600}",
        "\\u0041",
    ];
    for text in texts {
        assert_eq!(quoted(text), serde_json::to_string(text).unwrap());
    }
    for code in 0u32..0x80 {
        let text = char::from_u32(code).unwrap().to_string();
        assert_eq!(quoted(&text), serde_json::to_string(&text).unwrap());
    }
    assert_eq!(quoted("\u{1f}"), "\"\\u001f\"");
    assert_eq!(quoted("a\"b"), "\"a\\\"b\"");
}

#[test]
fn string_literals_are_read_back() {
    let text = chars_of("x\"a\\\"b\\u000a\\n\"y");
    assert_eq!(read_literal(&text, 1), Some(("a\"b\n\n".to_string(), 15)));
    assert_eq!(read_literal(&text, 0), None);
    assert_eq!(read_literal(&text, 15), None);
    assert_eq!(read_literal(&text, 16), None);
    let open = chars_of("\"abc");
    assert_eq!(read_literal(&open, 0), None);
    let upper = chars_of("\"\\u000A\"");
    assert_eq!(read_literal(&upper, 0), None);
    for code in 0u32..0x300 {
        let single = char::from_u32(code).unwrap().to_string();
        let written = chars_of(&quoted(&single));
        assert_eq!(read_literal(&written, 0), Some((single, written.len())));
    }
}

#[test]
fn chars_of_lists_the_characters() {
    assert_eq!(chars_of(""), Vec::<char>::new());
    assert_eq!(chars_of("a\u{e9}\u{1F600}"), vec!['a', '\u{e9}', '\u{1F600}']);
}

#[test]
fn create_cache_names_the_file_after_the_batch_and_counts_the_records() {
    let records = vec![record("Addr1", "S1", None), record("Addr2", "S2", None)];
    let cache = create_cache("out", "drop1.json", records, "M".to_string());
    assert_eq!(
        cache,
        CacheFile {
            path: "out/drop1.json".to_string(),
            content: "{\"token_mint\":\"M\",\"tokens_amount\":2,\"pubkeys_and_signatures\":[{\"pubkey\":\"Addr1\",\"amount\":null,\"signature\":\"S1\"},{\"pubkey\":\"Addr2\",\"amount\":null,\"signature\":\"S2\"}]}".to_string()
        }
    );
    let parsed = parse(&cache.content).unwrap();
    assert_eq!(parsed.token_mint, "M");
    assert_eq!(parsed.tokens_amount, 2);
    assert_eq!(parsed.pubkeys_and_signatures.len(), 2);
}
