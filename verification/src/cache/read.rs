//! Reading a cache file back.
//!
//! The reader takes the files that [`render`](crate::cache::render) writes,
//! character for character: the same fields in the same order, no white
//! space, and string literals with the escapes that `render` uses. What it
//! reads from such a file is what the file was written for.

use vstd::prelude::*;
use crate::cache::amount_text;
use crate::cache::document_text;
use crate::cache::record_text;
use crate::cache::records_text;
use crate::decimal::decimal_text;
use crate::decimal::ends_number;
use crate::decimal::is_digit;
use crate::decimal::leading_number;
use crate::decimal::lemma_decimal_text_reads_back;
use crate::decimal::lemma_leading_number_of_text;
use crate::decimal::read_number;
use crate::json::Read;
use crate::json::leading_literal;
use crate::json::lemma_literal_reads_back;
use crate::json::quoted;
use crate::json::read_literal;
use crate::record::RecordView;
use crate::record::RunResult;
use crate::record::RunResultView;
use crate::record::TransferRecord;
use crate::record::records_view;

verus! {

/// What follows `expected` in `text`, where `text` begins with it.
pub open spec fn after_prefix(expected: Seq<char>, text: Seq<char>) -> Option<Seq<char>> {
    if expected.is_prefix_of(text) {
        Some(text.skip(expected.len() as int))
    } else {
        None
    }
}

/// Reads an amount from the front of `text`: `null`, or a number.
pub open spec fn leading_amount(text: Seq<char>) -> Read<Option<u64>> {
    match after_prefix("null"@, text) {
        Some(rest) => Some((None, rest)),
        None => match leading_number(text) {
            Some((n, rest)) => Some((Some(n), rest)),
            None => None,
        },
    }
}

/// Reads one record from the front of `text`.
pub open spec fn leading_record(text: Seq<char>) -> Read<RecordView> {
    match after_prefix("{\"pubkey\":"@, text) {
        Some(text) => match leading_literal(text) {
            Some((pubkey, text)) => match after_prefix(",\"amount\":"@, text) {
                Some(text) => match leading_amount(text) {
                    Some((amount, text)) => match after_prefix(",\"signature\":"@, text) {
                        Some(text) => match leading_literal(text) {
                            Some((signature, text)) => match after_prefix("}"@, text) {
                                Some(rest) => Some((RecordView { pubkey, signature, amount }, rest)),
                                None => None,
                            },
                            None => None,
                        },
                        None => None,
                    },
                    None => None,
                },
                None => None,
            },
            None => None,
        },
        None => None,
    }
}

/// A reading with `record` put before the records that were read.
pub open spec fn after_record(record: RecordView, reading: Read<Seq<RecordView>>) -> Read<
    Seq<RecordView>,
> {
    match reading {
        Some((records, rest)) => Some((seq![record] + records, rest)),
        None => None,
    }
}

/// Reads what follows a record in a list up to the bracket that closes the
/// list: that bracket, or a comma, a record, and what follows it in turn.
pub open spec fn more_records(text: Seq<char>) -> Read<Seq<RecordView>>
    decreases text.len(),
{
    match after_prefix("]"@, text) {
        Some(rest) => Some((Seq::empty(), rest)),
        None => match after_prefix(","@, text) {
            Some(text_after_comma) => match leading_record(text_after_comma) {
                Some((record, rest)) => if rest.len() < text.len() {
                    after_record(record, more_records(rest))
                } else {
                    None
                },
                None => None,
            },
            None => None,
        },
    }
}

/// Reads the records of a list up to the bracket that closes it, from behind
/// the bracket that opens it.
pub open spec fn leading_records(text: Seq<char>) -> Read<Seq<RecordView>> {
    match after_prefix("]"@, text) {
        Some(rest) => Some((Seq::empty(), rest)),
        None => match leading_record(text) {
            Some((record, rest)) => after_record(record, more_records(rest)),
            None => None,
        },
    }
}

/// Reads a cache file: the result that `text` writes, where `text` is a
/// cache file from its first character to its last.
pub open spec fn read_document(text: Seq<char>) -> Option<RunResultView> {
    match after_prefix("{\"token_mint\":"@, text) {
        Some(text) => match leading_literal(text) {
            Some((token_mint, text)) => match after_prefix(",\"tokens_amount\":"@, text) {
                Some(text) => match leading_number(text) {
                    Some((count, text)) => match after_prefix(
                        ",\"pubkeys_and_signatures\":["@,
                        text,
                    ) {
                        Some(text) => match leading_records(text) {
                            Some((records, text)) => if text == "}"@ && count <= usize::MAX {
                                Some(
                                    RunResultView {
                                        token_mint,
                                        tokens_amount: count as nat,
                                        pubkeys_and_signatures: records,
                                    },
                                )
                            } else {
                                None
                            },
                            None => None,
                        },
                        None => None,
                    },
                    None => None,
                },
                None => None,
            },
            None => None,
        },
        None => None,
    }
}

/// What stands behind the first record of a list that goes on with
/// `records`: the bracket that closes the list, or a comma and the text of
/// `records` before that bracket; and `rest` behind the bracket.
pub open spec fn list_remainder(records: Seq<RecordView>, rest: Seq<char>) -> Seq<char> {
    if records.len() == 0 {
        "]"@ + rest
    } else {
        ","@ + (records_text(records) + ("]"@ + rest))
    }
}

/// A text that begins with `expected` goes on, behind it, with what was put
/// behind it.
proof fn lemma_after_prefix(expected: Seq<char>, rest: Seq<char>)
    ensures
        after_prefix(expected, expected + rest) == Some(rest),
{
    assert((expected + rest).skip(expected.len() as int) =~= rest);
}

/// The text of an amount, followed by something that is no digit, is read
/// back as the amount.
proof fn lemma_amount_reads_back(amount: Option<u64>, rest: Seq<char>)
    requires
        ends_number(rest),
    ensures
        leading_amount(amount_text(amount) + rest) == Some((amount, rest)),
{
    reveal_strlit("null");
    match amount {
        Some(n) => {
            let digits = decimal_text(n as nat);
            lemma_decimal_text_reads_back(n as nat);
            lemma_leading_number_of_text(n, rest);
            assert((digits + rest)[0] == digits[0]);
            assert(is_digit(digits[0]));
            assert("null"@[0] == 'n');
            if "null"@.is_prefix_of(digits + rest) {
                assert((digits + rest)[0] == "null"@[0]);
            }
        },
        None => {
            lemma_after_prefix("null"@, rest);
        },
    }
}

/// The text of a record is read back as the record, whatever follows.
proof fn lemma_record_reads_back(record: RecordView, rest: Seq<char>)
    ensures
        leading_record(record_text(record) + rest) == Some((record, rest)),
        record_text(record).len() > 0,
{
    reveal_strlit("{\"pubkey\":");
    reveal_strlit(",\"signature\":");
    let t7 = rest;
    let t6 = "}"@ + t7;
    let t5 = quoted(record.signature) + t6;
    let t4 = ",\"signature\":"@ + t5;
    let t3 = amount_text(record.amount) + t4;
    let t2 = ",\"amount\":"@ + t3;
    let t1 = quoted(record.pubkey) + t2;
    let t0 = "{\"pubkey\":"@ + t1;
    assert(record_text(record) + rest =~= t0);
    lemma_after_prefix("{\"pubkey\":"@, t1);
    lemma_literal_reads_back(record.pubkey, t2);
    lemma_after_prefix(",\"amount\":"@, t3);
    assert(t4[0] == ',');
    lemma_amount_reads_back(record.amount, t4);
    lemma_after_prefix(",\"signature\":"@, t5);
    lemma_literal_reads_back(record.signature, t6);
    lemma_after_prefix("}"@, t7);
}

/// The text of a list of one or more records, with the bracket that closes
/// the list behind it, is the text of the first record and what stands
/// behind it.
proof fn lemma_list_text_splits(records: Seq<RecordView>, rest: Seq<char>)
    requires
        records.len() > 0,
    ensures
        records_text(records) + ("]"@ + rest) == record_text(records.first()) + list_remainder(
            records.drop_first(),
            rest,
        ),
{
    let first = record_text(records.first());
    let others = records.drop_first();
    let end = "]"@ + rest;
    if others.len() == 0 {
        assert(records_text(records) == first);
    } else {
        assert(records_text(records) == first + ","@ + records_text(others));
        assert((first + ","@ + records_text(others)) + end =~= first + (","@ + (records_text(
            others,
        ) + end)));
    }
}

/// Behind a record of a list stands a comma or the bracket that closes the
/// list, and the two are told apart.
proof fn lemma_comma_or_bracket(text: Seq<char>)
    ensures
        after_prefix("]"@, ","@ + text).is_none(),
        after_prefix(","@, ","@ + text) == Some(text),
        after_prefix("]"@, "]"@ + text) == Some(text),
{
    reveal_strlit("]");
    reveal_strlit(",");
    lemma_after_prefix(","@, text);
    lemma_after_prefix("]"@, text);
    if "]"@.is_prefix_of(","@ + text) {
        assert((","@ + text)[0] == "]"@[0]);
    }
}

/// The text of a list of one or more records, with the bracket that closes
/// the list behind it, is read back record by record: the first record, and
/// then the others up to the bracket.
proof fn lemma_list_reads_back(records: Seq<RecordView>, rest: Seq<char>)
    requires
        records.len() > 0,
    ensures
        leading_record(records_text(records) + ("]"@ + rest)) == Some(
            (records.first(), list_remainder(records.drop_first(), rest)),
        ),
        more_records(list_remainder(records.drop_first(), rest)) == Some(
            (records.drop_first(), rest),
        ),
    decreases records.len(),
{
    let others = records.drop_first();
    let behind = list_remainder(others, rest);
    lemma_list_text_splits(records, rest);
    lemma_record_reads_back(records.first(), behind);
    if others.len() == 0 {
        lemma_comma_or_bracket(rest);
    } else {
        let text = records_text(others) + ("]"@ + rest);
        let next_behind = list_remainder(others.drop_first(), rest);
        lemma_list_reads_back(others, rest);
        lemma_comma_or_bracket(text);
        assert(behind == ","@ + text);
        assert(leading_record(text) == Some((others.first(), next_behind)));
        assert(more_records(next_behind) == Some((others.drop_first(), rest)));
        assert(next_behind.len() < behind.len()) by {
            lemma_list_text_splits(others, rest);
            lemma_record_reads_back(others.first(), next_behind);
            assert(text.len() == record_text(others.first()).len() + next_behind.len());
            assert(behind.len() == ","@.len() + text.len());
        }
        assert(seq![others.first()] + others.drop_first() =~= others);
        assert(after_record(others.first(), more_records(next_behind)) == Some((others, rest)));
    }
}

/// The text of a record begins with a brace.
proof fn lemma_record_text_begins(record: RecordView)
    ensures
        record_text(record).len() > 0,
        record_text(record)[0] == '{',
{
    reveal_strlit("{\"pubkey\":");
}

/// The text of one or more records begins with a brace.
proof fn lemma_records_text_begins(records: Seq<RecordView>)
    requires
        records.len() > 0,
    ensures
        records_text(records).len() > 0,
        records_text(records)[0] == '{',
{
    lemma_record_text_begins(records.first());
}

/// The text of a list of records, with the bracket that closes the list
/// behind it, is read back as the list.
proof fn lemma_records_read_back(records: Seq<RecordView>, rest: Seq<char>)
    ensures
        leading_records(records_text(records) + ("]"@ + rest)) == Some((records, rest)),
{
    let text = records_text(records) + ("]"@ + rest);
    if records.len() == 0 {
        assert(text =~= "]"@ + rest);
        lemma_comma_or_bracket(rest);
        assert(records =~= Seq::<RecordView>::empty());
    } else {
        lemma_list_reads_back(records, rest);
        lemma_records_text_begins(records);
        assert(text[0] == '{');
        assert(after_prefix("]"@, text).is_none()) by {
            reveal_strlit("]");
            if "]"@.is_prefix_of(text) {
                assert(text[0] == "]"@[0]);
            }
        }
        assert(seq![records.first()] + records.drop_first() =~= records);
    }
}

/// What stands behind the count of a cache file is no digit.
proof fn lemma_list_field_ends_number(text: Seq<char>)
    ensures
        ends_number(",\"pubkeys_and_signatures\":["@ + text),
{
    reveal_strlit(",\"pubkeys_and_signatures\":[");
    assert((",\"pubkeys_and_signatures\":["@ + text)[0] == ',');
}

/// The two brackets that close a cache file are the bracket of the list and
/// the brace of the object.
proof fn lemma_closing_brackets()
    ensures
        "]"@ + "}"@ == "]}"@,
{
    reveal_strlit("]}");
    reveal_strlit("]");
    reveal_strlit("}");
    assert("]"@ + "}"@ =~= "]}"@);
}

/// The text of a cache file, field by field from its end.
proof fn lemma_document_text_splits(result: RunResultView)
    ensures
        document_text(result) == "{\"token_mint\":"@ + (quoted(result.token_mint) + (
        ",\"tokens_amount\":"@ + (decimal_text(result.tokens_amount) + (
        ",\"pubkeys_and_signatures\":["@ + (records_text(result.pubkeys_and_signatures) + ("]"@
            + "}"@)))))),
{
    lemma_closing_brackets();
    let t4 = records_text(result.pubkeys_and_signatures) + ("]"@ + "}"@);
    let t3 = ",\"pubkeys_and_signatures\":["@ + t4;
    let t2 = decimal_text(result.tokens_amount) + t3;
    let t1 = ",\"tokens_amount\":"@ + t2;
    let t0 = quoted(result.token_mint) + t1;
    assert(document_text(result) =~= "{\"token_mint\":"@ + t0);
}

/// A cache file that is read back gives the result that it was written for:
/// the same mint, the same count, and the same records in the same order.
pub proof fn law_document_reads_back(result: RunResultView)
    requires
        result.tokens_amount <= usize::MAX,
    ensures
        read_document(document_text(result)) == Some(result),
{
    let t5 = "}"@;
    let t4 = records_text(result.pubkeys_and_signatures) + ("]"@ + t5);
    let t3 = ",\"pubkeys_and_signatures\":["@ + t4;
    let t2 = decimal_text(result.tokens_amount) + t3;
    let t1 = ",\"tokens_amount\":"@ + t2;
    let t0 = quoted(result.token_mint) + t1;
    lemma_document_text_splits(result);
    assert(document_text(result) == "{\"token_mint\":"@ + t0);
    lemma_after_prefix("{\"token_mint\":"@, t0);
    lemma_literal_reads_back(result.token_mint, t1);
    lemma_after_prefix(",\"tokens_amount\":"@, t2);
    lemma_list_field_ends_number(t4);
    lemma_leading_number_of_text(result.tokens_amount as u64, t3);
    lemma_after_prefix(",\"pubkeys_and_signatures\":["@, t4);
    lemma_records_read_back(result.pubkeys_and_signatures, t5);
}

/// The characters of `text`, one by one.
pub fn chars_of(text: &str) -> (r: Vec<char>)
    ensures
        r@ == text@,
{
    let mut chars: Vec<char> = Vec::new();
    for c in it: text.chars()
        invariant
            it.seq() == text@,
            chars@ == text@.take(it.index()),
    {
        chars.push(c);
        assert(text@.take(it.index()).push(c) =~= text@.take(it.index() + 1));
    }
    assert(text@.take(text@.len() as int) =~= text@);
    chars
}

/// Looks for `expected` at `text[from..]`. Returns the place after it, or
/// `None` where something else stands there.
fn expect(text: &Vec<char>, from: usize, expected: &str) -> (r: Option<usize>)
    requires
        from <= text.len(),
    ensures
        match r {
            Some(to) => to == from + expected@.len() && to <= text.len() && after_prefix(
                expected@,
                text@.skip(from as int),
            ) == Some(text@.skip(to as int)),
            None => after_prefix(expected@, text@.skip(from as int)).is_none(),
        },
{
    let ghost tail = text@.skip(from as int);
    let mut at: usize = from;
    for c in it: expected.chars()
        invariant
            it.seq() == expected@,
            tail == text@.skip(from as int),
            from <= text.len(),
            at == from + it.index(),
            at <= text.len(),
            forall|j: int| 0 <= j < it.index() ==> tail[j] == expected@[j],
    {
        if at >= text.len() {
            return None;
        }
        if text[at] != c {
            assert(tail[it.index()] != expected@[it.index()]);
            return None;
        }
        assert(tail[it.index()] == expected@[it.index()]);
        at = at + 1;
    }
    assert(expected@ =~= tail.take(expected@.len() as int));
    assert(tail.skip(expected@.len() as int) =~= text@.skip(at as int));
    Some(at)
}

/// Reads the amount at `text[from..]`, and gives the place after it.
fn read_amount(text: &Vec<char>, from: usize) -> (r: Option<(Option<u64>, usize)>)
    requires
        from <= text.len(),
    ensures
        match r {
            Some((amount, to)) => from < to <= text.len() && leading_amount(
                text@.skip(from as int),
            ) == Some((amount, text@.skip(to as int))),
            None => leading_amount(text@.skip(from as int)).is_none(),
        },
{
    proof {
        reveal_strlit("null");
    }
    match expect(text, from, "null") {
        Some(to) => Some((None, to)),
        None => match read_number(text, from) {
            Some((n, to)) => Some((Some(n), to)),
            None => None,
        },
    }
}

/// An optional record and place, seen as a reading of `text`.
pub open spec fn record_reading(r: Option<(TransferRecord, usize)>, text: Seq<char>) -> Read<
    RecordView,
> {
    match r {
        Some((record, to)) => Some((record@, text.skip(to as int))),
        None => None,
    }
}

/// Reads the record at `text[from..]`, and gives the place after it.
fn read_record(text: &Vec<char>, from: usize) -> (r: Option<(TransferRecord, usize)>)
    requires
        from <= text.len(),
    ensures
        record_reading(r, text@) == leading_record(text@.skip(from as int)),
        r matches Some((_, to)) ==> from < to <= text.len(),
{
    proof {
        reveal_strlit("}");
    }
    let at = match expect(text, from, "{\"pubkey\":") {
        Some(to) => to,
        None => {
            return None;
        },
    };
    let (pubkey, at) = match read_literal(text, at) {
        Some(read) => read,
        None => {
            return None;
        },
    };
    let at = match expect(text, at, ",\"amount\":") {
        Some(to) => to,
        None => {
            return None;
        },
    };
    let (amount, at) = match read_amount(text, at) {
        Some(read) => read,
        None => {
            return None;
        },
    };
    let at = match expect(text, at, ",\"signature\":") {
        Some(to) => to,
        None => {
            return None;
        },
    };
    let (signature, at) = match read_literal(text, at) {
        Some(read) => read,
        None => {
            return None;
        },
    };
    let at = match expect(text, at, "}") {
        Some(to) => to,
        None => {
            return None;
        },
    };
    Some((TransferRecord { pubkey, signature, amount }, at))
}

/// A reading with `records` put before the records that were read.
pub open spec fn after_records(records: Seq<RecordView>, reading: Read<Seq<RecordView>>) -> Read<
    Seq<RecordView>,
> {
    match reading {
        Some((more, rest)) => Some((records + more, rest)),
        None => None,
    }
}

/// Reads the records of a list from behind the bracket that opens it, at
/// `text[from..]`, up to the bracket that closes it, and gives the place
/// after that bracket.
fn read_records(text: &Vec<char>, from: usize) -> (r: Option<(Vec<TransferRecord>, usize)>)
    requires
        from <= text.len(),
    ensures
        match r {
            Some((records, to)) => to <= text.len() && leading_records(text@.skip(from as int))
                == Some((records_view(records@), text@.skip(to as int))),
            None => leading_records(text@.skip(from as int)).is_none(),
        },
{
    proof {
        reveal_strlit("]");
        reveal_strlit(",");
    }
    let mut records: Vec<TransferRecord> = Vec::new();
    match expect(text, from, "]") {
        Some(to) => {
            assert(records_view(records@) =~= Seq::<RecordView>::empty());
            return Some((records, to));
        },
        None => {},
    }
    let mut at = match read_record(text, from) {
        Some((record, to)) => {
            records.push(record);
            to
        },
        None => {
            return None;
        },
    };
    proof {
        let reading = more_records(text@.skip(at as int));
        assert(records_view(records@) =~= seq![records[0]@]);
        if reading.is_some() {
            assert(seq![records[0]@] + reading.unwrap().0 =~= records_view(records@)
                + reading.unwrap().0);
        }
    }
    loop
        invariant
            from <= at <= text.len(),
            leading_records(text@.skip(from as int)) == after_records(
                records_view(records@),
                more_records(text@.skip(at as int)),
            ),
        decreases text.len() - at,
    {
        let ghost here = text@.skip(at as int);
        match expect(text, at, "]") {
            Some(to) => {
                assert(records_view(records@) + Seq::<RecordView>::empty() =~= records_view(
                    records@,
                ));
                return Some((records, to));
            },
            None => {},
        }
        let comma = match expect(text, at, ",") {
            Some(to) => to,
            None => {
                return None;
            },
        };
        match read_record(text, comma) {
            Some((record, to)) => {
                proof {
                    let reading = more_records(text@.skip(to as int));
                    let before = records_view(records@);
                    assert(records_view(records@.push(record)) =~= before.push(record@));
                    if reading.is_some() {
                        assert(before + (seq![record@] + reading.unwrap().0) =~= before.push(
                            record@,
                        ) + reading.unwrap().0);
                    }
                }
                records.push(record);
                at = to;
            },
            None => {
                return None;
            },
        }
    }
}

/// An optional result seen as what it holds.
pub open spec fn result_view(result: Option<RunResult>) -> Option<RunResultView> {
    match result {
        Some(result) => Some(result@),
        None => None,
    }
}

/// Reads a cache file. Returns the result that it writes, or `None` where
/// `text` is not a cache file as `render` writes them.
pub fn parse(text: &str) -> (r: Option<RunResult>)
    ensures
        result_view(r) == read_document(text@),
{
    proof {
        reveal_strlit("}");
    }
    let chars = chars_of(text);
    assert(chars@.skip(0) =~= text@);
    let at = match expect(&chars, 0, "{\"token_mint\":") {
        Some(to) => to,
        None => {
            return None;
        },
    };
    let (token_mint, at) = match read_literal(&chars, at) {
        Some(read) => read,
        None => {
            return None;
        },
    };
    let at = match expect(&chars, at, ",\"tokens_amount\":") {
        Some(to) => to,
        None => {
            return None;
        },
    };
    let (count, at) = match read_number(&chars, at) {
        Some(read) => read,
        None => {
            return None;
        },
    };
    let at = match expect(&chars, at, ",\"pubkeys_and_signatures\":[") {
        Some(to) => to,
        None => {
            return None;
        },
    };
    let (records, at) = match read_records(&chars, at) {
        Some(read) => read,
        None => {
            return None;
        },
    };
    let ghost tail = chars@.skip(at as int);
    match expect(&chars, at, "}") {
        Some(end) => {
            if end != chars.len() {
                assert(tail.len() != 1);
                return None;
            }
            assert(tail =~= "}"@);
        },
        None => {
            assert(!"}"@.is_prefix_of(tail));
            assert(tail != "}"@);
            return None;
        },
    }
    if count > usize::MAX as u64 {
        return None;
    }
    Some(RunResult { token_mint, tokens_amount: count as usize, pubkeys_and_signatures: records })
}

} // verus!
