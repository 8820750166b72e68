//! What a run leaves behind: one record for each transfer.

use vstd::prelude::*;

verus! {

/// One confirmed transfer: who received it, the signature that confirmed it,
/// and the recipient's balance afterwards where it was asked for and known.
#[derive(Clone, Debug, PartialEq, Eq)]
pub struct TransferRecord {
    pub pubkey: String,
    pub signature: String,
    pub amount: Option<u64>,
}

/// What a `TransferRecord` holds.
pub struct RecordView {
    pub pubkey: Seq<char>,
    pub signature: Seq<char>,
    pub amount: Option<u64>,
}

impl View for TransferRecord {
    type V = RecordView;

    open spec fn view(&self) -> RecordView {
        RecordView { pubkey: self.pubkey@, signature: self.signature@, amount: self.amount }
    }
}

/// A list of records seen as what each of them holds.
pub open spec fn records_view(records: Seq<TransferRecord>) -> Seq<RecordView> {
    records.map_values(|r: TransferRecord| r@)
}

/// What a finished run is recorded as: the mint, the number of transfers, and
/// the transfers themselves.
#[derive(Clone, Debug, PartialEq, Eq)]
pub struct RunResult {
    pub token_mint: String,
    pub tokens_amount: usize,
    pub pubkeys_and_signatures: Vec<TransferRecord>,
}

/// What a `RunResult` holds.
pub struct RunResultView {
    pub token_mint: Seq<char>,
    pub tokens_amount: nat,
    pub pubkeys_and_signatures: Seq<RecordView>,
}

impl View for RunResult {
    type V = RunResultView;

    open spec fn view(&self) -> RunResultView {
        RunResultView {
            token_mint: self.token_mint@,
            tokens_amount: self.tokens_amount as nat,
            pubkeys_and_signatures: records_view(self.pubkeys_and_signatures@),
        }
    }
}

impl RunResult {
    /// The result of a run over `token_mint` that made the transfers
    /// `records`: it counts them and keeps them as they are.
    pub fn new(token_mint: String, records: Vec<TransferRecord>) -> (r: RunResult)
        ensures
            r@.token_mint == token_mint@,
            r@.tokens_amount == records.len(),
            r@.pubkeys_and_signatures == records_view(records@),
    {
        RunResult { token_mint, tokens_amount: records.len(), pubkeys_and_signatures: records }
    }
}

} // verus!
