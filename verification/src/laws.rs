//! What holds of every run, whatever the chain answers.
//!
//! A run is followed here through any sequence of answers, from any state
//! that a run can be in.

use vstd::prelude::*;
use crate::address::text_of_address;
use crate::instruction::mint_to_instruction;
use crate::record::RecordView;
use crate::state::ActionView;
use crate::state::DECIMALS;
use crate::state::Event;
use crate::state::Phase;
use crate::state::RunView;
use crate::state::Signers;
use crate::state::Step;
use crate::state::amount_of;
use crate::state::first_step;
use crate::state::law_next_keeps_wf;

verus! {

impl RunView {
    /// The run after the answers `events`, taken one after another.
    pub open spec fn after(self, events: Seq<Event>) -> RunView
        decreases events.len(),
    {
        if events.len() == 0 {
            self
        } else {
            self.after(events.drop_last()).next(events.last())
        }
    }

    /// The run when it asked for its request number `k`, counted from zero:
    /// after the first `k` answers.
    pub open spec fn when(self, events: Seq<Event>, k: int) -> RunView {
        self.after(events.take(k))
    }

    /// Whether the run is about to mint: the request it asks for is the
    /// minting of the supply.
    pub open spec fn mints(self) -> bool {
        self.phase == Phase::Awaiting(Step::MintSupply)
    }

    /// Whether the run has come past the minting of the supply.
    pub open spec fn past_minting(self) -> bool {
        match self.phase {
            Phase::Awaiting(step) => step.place() > Step::MintSupply.place(),
            Phase::Finished => true,
            Phase::Failed(_) => false,
        }
    }

    /// Whether the run begins here: at its first step, with nothing recorded.
    pub open spec fn begins(self) -> bool {
        &&& self.wf()
        &&& self.phase == Phase::Awaiting(first_step(self.fresh_mint))
    }
}

/// One answer changes neither the wallet, the mint, the recipients nor the
/// choices of a run, and it takes no record back.
pub proof fn law_next_keeps_plan(run: RunView, event: Event)
    ensures
        run.next(event).wallet == run.wallet,
        run.next(event).mint == run.mint,
        run.next(event).fresh_mint == run.fresh_mint,
        run.next(event).funding_account == run.funding_account,
        run.next(event).recipients == run.recipients,
        run.next(event).verify_balances == run.verify_balances,
        run.records.is_prefix_of(run.next(event).records),
{
}

/// Any number of answers keep what holds of every run, and change neither
/// the wallet, the mint, the recipients nor the choices of the run.
pub proof fn law_run_keeps_wf(start: RunView, events: Seq<Event>)
    requires
        start.wf(),
    ensures
        start.after(events).wf(),
        start.after(events).derived() == start.derived(),
        start.after(events).wallet == start.wallet,
        start.after(events).mint == start.mint,
        start.after(events).fresh_mint == start.fresh_mint,
        start.after(events).funding_account == start.funding_account,
        start.after(events).recipients == start.recipients,
        start.after(events).verify_balances == start.verify_balances,
    decreases events.len(),
{
    if events.len() > 0 {
        law_run_keeps_wf(start, events.drop_last());
        law_next_keeps_wf(start.after(events.drop_last()), events.last());
        law_next_keeps_plan(start.after(events.drop_last()), events.last());
    }
}

/// A finished run has made one record for each recipient of the batch, in
/// the order of the batch: as many records as recipients, and the record at
/// each place names the recipient at that place.
pub proof fn law_finished_run_records_each_recipient(start: RunView, events: Seq<Event>)
    requires
        start.wf(),
        start.after(events).phase is Finished,
    ensures
        start.after(events).records.len() == start.recipients.len(),
        forall|i: int|
            0 <= i < start.recipients.len() ==> (#[trigger] start.after(events).records[i]).pubkey
                == start.recipients[i].text,
{
    law_run_keeps_wf(start, events);
}

/// The records of a finished run name the recipients of the batch by the
/// text of their addresses, one after another.
pub proof fn law_records_name_the_recipients(start: RunView, events: Seq<Event>)
    requires
        start.wf(),
        start.derived(),
        start.after(events).phase is Finished,
    ensures
        start.after(events).records.len() == start.recipients.len(),
        forall|i: int|
            0 <= i < start.recipients.len() ==> (#[trigger] start.after(events).records[i]).pubkey
                == text_of_address(start.recipients[i].owner@),
{
    law_finished_run_records_each_recipient(start, events);
}

/// One answer moves a run forward: where the run still waits on a step
/// afterwards, that step comes later in the order of steps than the one it
/// waited on before.
pub proof fn law_next_moves_forward(run: RunView, event: Event)
    requires
        run.wf(),
    ensures
        run.next(event).phase matches Phase::Awaiting(later) ==> run.phase matches Phase::Awaiting(
            earlier,
        ) && earlier.place() < later.place(),
{
}

/// The steps of a run come in order and none comes twice: of two requests
/// that a run asks for, the later one is for a later step.
pub proof fn law_steps_in_order(start: RunView, events: Seq<Event>, j: int, k: int)
    requires
        start.wf(),
        0 <= j < k <= events.len(),
        start.when(events, k).phase is Awaiting,
    ensures
        start.when(events, j).phase matches Phase::Awaiting(earlier) && start.when(
            events,
            k,
        ).phase matches Phase::Awaiting(later) && earlier.place() < later.place(),
    decreases k - j,
{
    let before = start.when(events, k - 1);
    assert(events.take(k).drop_last() =~= events.take(k - 1));
    assert(events.take(k).last() == events[k - 1]);
    assert(start.when(events, k) == before.next(events[k - 1]));
    law_run_keeps_wf(start, events.take(k - 1));
    law_next_moves_forward(before, events[k - 1]);
    if j < k - 1 {
        law_steps_in_order(start, events, j, k - 1);
    }
}

/// Whenever a run mints, it mints one unit for each recipient of the batch
/// into the wallet's token account, in one transaction that the wallet signs.
pub proof fn law_mint_is_batch_size(start: RunView, events: Seq<Event>)
    requires
        start.wf(),
        start.after(events).mints(),
    ensures
        start.after(events).action() == (ActionView::Submit {
            instruction: mint_to_instruction(
                start.mint@,
                start.funding_account@,
                start.wallet@,
                start.recipients.len() as u64,
                DECIMALS,
            ),
            signers: Signers::Wallet,
        }),
{
    law_run_keeps_wf(start, events);
}

/// A run mints at most once: two requests that both mint are the same request.
pub proof fn law_mints_at_most_once(start: RunView, events: Seq<Event>, j: int, k: int)
    requires
        start.wf(),
        0 <= j <= events.len(),
        0 <= k <= events.len(),
        start.when(events, j).mints(),
        start.when(events, k).mints(),
    ensures
        j == k,
{
    if j < k {
        law_steps_in_order(start, events, j, k);
    } else if k < j {
        law_steps_in_order(start, events, k, j);
    }
}

/// No transfer goes out before the supply is minted: a run that begins at its
/// first step and has come past minting did ask for the minting, and had it
/// confirmed.
pub proof fn law_minted_before_transfers(start: RunView, events: Seq<Event>) -> (k: int)
    requires
        start.begins(),
        start.after(events).past_minting(),
    ensures
        0 <= k < events.len(),
        start.when(events, k).mints(),
        events[k] is Confirmed,
    decreases events.len(),
{
    let before = start.after(events.drop_last());
    if events.len() > 0 {
        law_run_keeps_wf(start, events.drop_last());
    }
    if events.len() > 0 && !before.mints() {
        let k = law_minted_before_transfers(start, events.drop_last());
        assert(events.drop_last().take(k) =~= events.take(k));
        k
    } else {
        assert(events.take(events.len() - 1) =~= events.drop_last());
        events.len() - 1
    }
}

/// The balance that the chain states for a recipient goes into the record of
/// the transfer to that recipient: the number as the chain writes it, or
/// nothing where the chain gave no number.
pub proof fn law_stated_balance_is_recorded(run: RunView, index: usize, reply: Option<String>)
    requires
        run.wf(),
        run.phase == Phase::Awaiting(Step::CheckBalance { index }),
    ensures
        run.next(Event::Balance(reply)).records == run.records.push(
            RecordView {
                pubkey: run.recipients[index as int].text,
                signature: run.pending_signature,
                amount: amount_of(reply),
            },
        ),
{
}

/// Without a balance check the record of a transfer is made when the
/// transfer is confirmed, under the signature of the confirmation and with
/// no amount.
pub proof fn law_unchecked_transfer_is_recorded(run: RunView, index: usize, signature: String)
    requires
        run.wf(),
        run.phase == Phase::Awaiting(Step::Transfer { index }),
        !run.verify_balances,
    ensures
        run.next(Event::Confirmed(signature)).records == run.records.push(
            RecordView {
                pubkey: run.recipients[index as int].text,
                signature: signature@,
                amount: None,
            },
        ),
{
}

/// A run over a mint that exists never asks for anything that creates a
/// mint: no rent query, no account creation, no initialization, no funding
/// account.
pub proof fn law_given_mint_is_not_created(start: RunView, events: Seq<Event>)
    requires
        start.wf(),
        !start.fresh_mint,
    ensures
        start.after(events).phase matches Phase::Awaiting(step) ==> !step.creates_mint(),
        !(start.after(events).action() is QueryRent),
{
    law_run_keeps_wf(start, events);
}

/// A run over a mint that exists begins by minting.
pub proof fn law_given_mint_begins_by_minting(start: RunView)
    requires
        start.begins(),
        !start.fresh_mint,
    ensures
        start.mints(),
{
}

} // verus!
