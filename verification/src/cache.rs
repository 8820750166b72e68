//! The cache file of a run: its result as one JSON object, written without
//! white space.
//!
//! The object holds `token_mint`, `tokens_amount` and
//! `pubkeys_and_signatures`, in this order; each entry of the last holds
//! `pubkey`, `amount` (a number, or `null` where the balance is not known)
//! and `signature`. The file goes into the cache directory under the name of
//! the batch file. [`read`] reads such a file back.

pub mod read;

use vstd::prelude::*;
use vstd::string::*;
use crate::decimal::decimal_text;
use crate::decimal::push_decimal;
use crate::json::push_quoted;
use crate::json::quoted;
use crate::record::RecordView;
use crate::record::RunResult;
use crate::record::RunResultView;
use crate::record::TransferRecord;
use crate::record::records_view;

verus! {

/// The text of an amount: its numeral, or `null` where there is none.
pub open spec fn amount_text(amount: Option<u64>) -> Seq<char> {
    match amount {
        Some(n) => decimal_text(n as nat),
        None => "null"@,
    }
}

/// The text of one record.
pub open spec fn record_text(record: RecordView) -> Seq<char> {
    "{\"pubkey\":"@ + quoted(record.pubkey) + ",\"amount\":"@ + amount_text(record.amount)
        + ",\"signature\":"@ + quoted(record.signature) + "}"@
}

/// The text of a list of records: one after another, with a comma between
/// each two.
pub open spec fn records_text(records: Seq<RecordView>) -> Seq<char>
    decreases records.len(),
{
    if records.len() == 0 {
        Seq::empty()
    } else if records.len() == 1 {
        record_text(records.first())
    } else {
        record_text(records.first()) + ","@ + records_text(records.drop_first())
    }
}

/// The text of the cache file for a result.
pub open spec fn document_text(result: RunResultView) -> Seq<char> {
    "{\"token_mint\":"@ + quoted(result.token_mint) + ",\"tokens_amount\":"@ + decimal_text(
        result.tokens_amount,
    ) + ",\"pubkeys_and_signatures\":["@ + records_text(result.pubkeys_and_signatures) + "]}"@
}

/// The text of a list with one more record at its end.
proof fn lemma_records_text_push(records: Seq<RecordView>, record: RecordView)
    ensures
        records_text(records.push(record)) == if records.len() == 0 {
            record_text(record)
        } else {
            records_text(records) + ","@ + record_text(record)
        },
    decreases records.len(),
{
    let longer = records.push(record);
    if records.len() == 0 {
        assert(longer.first() == record);
    } else {
        assert(longer.first() == records.first());
        assert(longer.drop_first() =~= records.drop_first().push(record));
        lemma_records_text_push(records.drop_first(), record);
        if records.len() == 1 {
            assert(records.drop_first().len() == 0);
            assert(records_text(longer) =~= records_text(records) + ","@ + record_text(record));
        } else {
            assert(records_text(longer) =~= records_text(records) + ","@ + record_text(record));
        }
    }
}

/// Appends to `out` the text of an amount.
fn push_amount(out: &mut String, amount: Option<u64>)
    ensures
        final(out)@ == old(out)@ + amount_text(amount),
{
    match amount {
        Some(n) => push_decimal(out, n),
        None => out.append("null"),
    }
}

/// Appends to `out` the text of one record.
fn push_record(out: &mut String, record: &TransferRecord)
    ensures
        final(out)@ == old(out)@ + record_text(record@),
{
    out.append("{\"pubkey\":");
    push_quoted(out, record.pubkey.as_str());
    out.append(",\"amount\":");
    push_amount(out, record.amount);
    out.append(",\"signature\":");
    push_quoted(out, record.signature.as_str());
    out.append("}");
    assert(out@ =~= old(out)@ + record_text(record@));
}

/// Writes the cache file for `result`.
pub fn render(result: &RunResult) -> (r: String)
    ensures
        r@ == document_text(result@),
{
    let mut out = String::new();
    out.append("{\"token_mint\":");
    push_quoted(&mut out, result.token_mint.as_str());
    out.append(",\"tokens_amount\":");
    push_decimal(&mut out, result.tokens_amount as u64);
    out.append(",\"pubkeys_and_signatures\":[");
    let ghost head = out@;
    let ghost all = result@.pubkeys_and_signatures;
    let records = &result.pubkeys_and_signatures;
    let mut i: usize = 0;
    assert(out@ =~= head + records_text(all.take(0)));
    while i < records.len()
        invariant
            0 <= i <= records.len(),
            all == records_view(records@),
            out@ == head + records_text(all.take(i as int)),
        decreases records.len() - i,
    {
        if i > 0 {
            out.append(",");
        }
        push_record(&mut out, &records[i]);
        proof {
            assert(all[i as int] == records[i as int]@);
            assert(all.take(i as int).push(all[i as int]) =~= all.take(i + 1));
            lemma_records_text_push(all.take(i as int), all[i as int]);
            assert(out@ =~= head + records_text(all.take(i + 1)));
        }
        i = i + 1;
    }
    assert(all.take(i as int) =~= all);
    out.append("]}");
    assert(out@ =~= document_text(result@));
    out
}

/// Where the cache file of a batch goes: in the cache directory, under the
/// name of the batch file.
pub open spec fn cache_path_text(directory: Seq<char>, file_name: Seq<char>) -> Seq<char> {
    directory + "/"@ + file_name
}

/// The path of the cache file for the batch file `file_name`.
pub fn cache_path(directory: &str, file_name: &str) -> (r: String)
    ensures
        r@ == cache_path_text(directory@, file_name@),
{
    let mut path = directory.to_owned();
    path.append("/");
    path.append(file_name);
    path
}

/// A cache file to write: where it goes, and what it holds.
#[derive(Clone, Debug, PartialEq, Eq)]
pub struct CacheFile {
    pub path: String,
    pub content: String,
}

/// The result of a run over `token_mint` that made the transfers `records`.
pub open spec fn result_of(token_mint: Seq<char>, records: Seq<TransferRecord>) -> RunResultView {
    RunResultView {
        token_mint,
        tokens_amount: records.len(),
        pubkeys_and_signatures: records_view(records),
    }
}

/// Makes the cache file of the batch file `file_name`: it goes into
/// `directory` under the same name, and holds the mint, the number of
/// transfers and the transfers.
pub fn create_cache(
    directory: &str,
    file_name: &str,
    records: Vec<TransferRecord>,
    token_mint: String,
) -> (r: CacheFile)
    ensures
        r.path@ == cache_path_text(directory@, file_name@),
        r.content@ == document_text(result_of(token_mint@, records@)),
{
    let result = RunResult::new(token_mint, records);
    CacheFile { path: cache_path(directory, file_name), content: render(&result) }
}

} // verus!
