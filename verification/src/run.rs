//! One run over one batch, carried out step by step.
//!
//! A `Run` names the next request to make of the chain (`Run::pending`),
//! takes what the chain answered (`Run::advance`), and keeps the records of
//! the transfers confirmed so far. It makes no request itself: whoever holds
//! the client and the keys does, one request at a time.

use vstd::prelude::*;
use crate::address::Address;
use crate::address::address_of_text;
use crate::address::associated_address;
use crate::address::bytes_of;
use crate::address::collect;
use crate::address::text_of_address;
use crate::decimal::parse_u64;
use crate::instruction::Instruction;
use crate::instruction::build_create_associated_account;
use crate::instruction::create_mint_account;
use crate::instruction::initialize_mint;
use crate::instruction::mint_account_space;
use crate::instruction::mint_to;
use crate::instruction::transfer;
use crate::progress::percent_of;
use crate::progress::progress_percent;
use crate::record::RunResult;
use crate::record::TransferRecord;
use crate::record::records_view;
use crate::state::ActionView;
use crate::state::DECIMALS;
use crate::state::Event;
use crate::state::Failure;
use crate::state::Phase;
use crate::state::ProgressView;
use crate::state::RecipientView;
use crate::state::RunView;
use crate::state::Signers;
use crate::state::Step;
use crate::state::UNITS_PER_RECIPIENT;
use crate::state::amount_of;
use crate::state::first_step;
use crate::state::law_next_keeps_wf;

verus! {

/// What a run asks for next.
#[derive(Clone, Debug, PartialEq, Eq)]
pub enum Action {
    /// Ask the chain for the balance that keeps an account of `space` bytes
    /// exempt from rent, and answer with `Event::Rent`.
    QueryRent { space: usize },
    /// Submit `instruction` as one transaction paid for by the wallet and
    /// signed by `signers`, wait for its confirmation, and answer with
    /// `Event::Confirmed` or `Event::Rejected`.
    Submit { instruction: Instruction, signers: Signers },
    /// Ask the chain for the balance of the token account `account`, and
    /// answer with `Event::Balance`.
    QueryBalance { account: Address },
    /// Nothing is left to do: every recipient has received the transfer.
    Finish,
    /// Nothing more can be done: the run has stopped.
    Abort(Failure),
}

impl View for Action {
    type V = ActionView;

    open spec fn view(&self) -> ActionView {
        match *self {
            Action::QueryRent { space } => ActionView::QueryRent { space },
            Action::Submit { instruction, signers } => ActionView::Submit {
                instruction: instruction@,
                signers,
            },
            Action::QueryBalance { account } => ActionView::QueryBalance { account },
            Action::Finish => ActionView::Finish,
            Action::Abort(failure) => ActionView::Abort(failure),
        }
    }
}

/// Notice of one more recipient done: the recipient's address as text, and
/// the percentage of the batch that is done with it.
#[derive(Clone, Debug, PartialEq, Eq)]
pub struct Progress {
    pub recipient: String,
    pub percent: u8,
}

impl View for Progress {
    type V = ProgressView;

    open spec fn view(&self) -> ProgressView {
        ProgressView { recipient: self.recipient@, percent: self.percent as nat }
    }
}

/// An optional notice seen as plain values.
pub open spec fn notice_view(notice: Option<Progress>) -> Option<ProgressView> {
    match notice {
        Some(progress) => Some(progress@),
        None => None,
    }
}

/// Why a run cannot be set up.
#[derive(Clone, Copy, Debug, PartialEq, Eq)]
pub enum PlanError {
    /// The batch names nobody.
    EmptyBatch,
    /// The mint that was given is not the text of an address.
    InvalidMint,
    /// No token account address can be derived for the wallet.
    NoFundingAccount,
    /// No token account address can be derived for the recipient at `index`,
    /// the first such recipient.
    NoRecipientAccount { index: usize },
}

/// The mint of a run: the one given as text, or else the fresh one. `None`
/// where the text given is not the text of an address.
pub open spec fn mint_of(fresh_mint: Address, provided_mint: Option<&str>) -> Option<Seq<u8>> {
    match provided_mint {
        Some(text) => address_of_text(text@),
        None => Some(fresh_mint@),
    }
}

/// Whether each of the first `n` owners has a token account address for `mint`.
pub open spec fn all_derivable(owners: Seq<Address>, mint: Seq<u8>, n: int) -> bool {
    forall|i: int| 0 <= i < n ==> (#[trigger] associated_address(owners[i]@, mint)).is_some()
}

/// Whether a run can be set up: the batch names somebody, the mint is an
/// address, and the wallet and every recipient have a token account address
/// for it.
pub open spec fn accepts(
    wallet: Address,
    fresh_mint: Address,
    provided_mint: Option<&str>,
    recipients: Seq<Address>,
) -> bool {
    &&& recipients.len() > 0
    &&& match mint_of(fresh_mint, provided_mint) {
        Some(mint) => associated_address(wallet@, mint).is_some() && all_derivable(
            recipients,
            mint,
            recipients.len() as int,
        ),
        None => false,
    }
}

/// Whether a run is refused with `error`. The conditions are tried in the
/// order of the variants, and the first that fails gives the error.
pub open spec fn refuses(
    wallet: Address,
    fresh_mint: Address,
    provided_mint: Option<&str>,
    recipients: Seq<Address>,
    error: PlanError,
) -> bool {
    match error {
        PlanError::EmptyBatch => recipients.len() == 0,
        PlanError::InvalidMint => recipients.len() > 0 && mint_of(fresh_mint, provided_mint).is_none(),
        PlanError::NoFundingAccount => recipients.len() > 0 && match mint_of(
            fresh_mint,
            provided_mint,
        ) {
            Some(mint) => associated_address(wallet@, mint).is_none(),
            None => false,
        },
        PlanError::NoRecipientAccount { index } => recipients.len() > 0 && match mint_of(
            fresh_mint,
            provided_mint,
        ) {
            Some(mint) => {
                &&& associated_address(wallet@, mint).is_some()
                &&& index < recipients.len()
                &&& associated_address(recipients[index as int]@, mint).is_none()
                &&& all_derivable(recipients, mint, index as int)
            },
            None => false,
        },
    }
}

/// The amount that a balance reply states: the decimal number that the
/// chain wrote, or `None` where the query failed or the reply is no number
/// that fits in 64 bits.
pub fn stated_amount(reply: Option<String>) -> (r: Option<u64>)
    ensures
        r == amount_of(reply),
{
    match reply {
        Some(text) => parse_u64(text.as_str()),
        None => None,
    }
}

/// The phase after the answer `event` to the transaction of `step`, which
/// has to be confirmed for the run to go on to `then`.
fn settled(step: Step, event: &Event, then: Step) -> (phase: Phase)
    ensures
        phase == match *event {
            Event::Confirmed(_) => Phase::Awaiting(then),
            Event::Rejected => Phase::Failed(Failure::Rejected(step)),
            _ => Phase::Failed(Failure::OutOfTurn(step)),
        },
{
    match event {
        Event::Confirmed(_) => Phase::Awaiting(then),
        Event::Rejected => Phase::Failed(Failure::Rejected(step)),
        _ => Phase::Failed(Failure::OutOfTurn(step)),
    }
}

/// Records the transfer to the recipient at `index`, and gives the phase that
/// follows and the notice of it.
fn record(
    records: &mut Vec<TransferRecord>,
    targets: &Vec<Target>,
    index: usize,
    signature: String,
    amount: Option<u64>,
) -> (r: (Phase, Progress))
    requires
        index < targets.len(),
    ensures
        final(records)@ == old(records)@.push(
            TransferRecord { pubkey: targets[index as int].text, signature, amount },
        ),
        r.0 == if index + 1 < targets.len() {
            Phase::Awaiting(Step::CreateRecipientAccount { index: (index + 1) as usize })
        } else {
            Phase::Finished
        },
        r.1@ == (ProgressView {
            recipient: targets[index as int].text@,
            percent: percent_of((index + 1) as nat, targets.len() as nat),
        }),
{
    let text = targets[index].text.clone();
    let percent = match progress_percent(index, targets.len()) {
        Some(percent) => percent,
        None => 0,
    };
    records.push(TransferRecord { pubkey: targets[index].text.clone(), signature, amount });
    let phase = if index + 1 < targets.len() {
        Phase::Awaiting(Step::CreateRecipientAccount { index: index + 1 })
    } else {
        Phase::Finished
    };
    (phase, Progress { recipient: text, percent })
}

/// A recipient as the run holds it.
struct Target {
    owner: Address,
    account: Address,
    text: String,
}

impl View for Target {
    type V = RecipientView;

    closed spec fn view(&self) -> RecipientView {
        RecipientView { owner: self.owner, account: self.account, text: self.text@ }
    }
}

/// A run over one batch.
pub struct Run {
    wallet: Address,
    mint: Address,
    fresh_mint: bool,
    funding_account: Address,
    targets: Vec<Target>,
    verify_balances: bool,
    phase: Phase,
    pending_signature: String,
    records: Vec<TransferRecord>,
}

impl View for Run {
    type V = RunView;

    closed spec fn view(&self) -> RunView {
        RunView {
            wallet: self.wallet,
            mint: self.mint,
            fresh_mint: self.fresh_mint,
            funding_account: self.funding_account,
            recipients: self.targets@.map_values(|t: Target| t@),
            verify_balances: self.verify_balances,
            phase: self.phase,
            pending_signature: self.pending_signature@,
            records: records_view(self.records@),
        }
    }
}

impl Run {
    #[verifier::type_invariant]
    spec fn consistent(self) -> bool {
        self@.wf() && self@.derived()
    }

    /// Sets up a run that distributes a mint to `recipients`.
    ///
    /// The mint is `provided_mint`, where one is given: it is taken to exist
    /// with the wallet as its authority, and the run begins by minting. Else
    /// the mint is `fresh_mint`, the address of a key that the caller has
    /// made for it, and the run begins by creating it. The token accounts of
    /// the wallet and of each recipient are derived here, so that a run that
    /// cannot be carried out is refused before it asks for anything.
    pub fn begin(
        wallet: Address,
        fresh_mint: Address,
        provided_mint: Option<&str>,
        recipients: &Vec<Address>,
        verify_balances: bool,
    ) -> (r: Result<Run, PlanError>)
        ensures
            match r {
                Err(error) => refuses(wallet, fresh_mint, provided_mint, recipients@, error),
                Ok(run) => {
                    &&& accepts(wallet, fresh_mint, provided_mint, recipients@)
                    &&& mint_of(fresh_mint, provided_mint) == Some(run@.mint@)
                    &&& run@.wallet == wallet
                    &&& run@.fresh_mint == provided_mint.is_none()
                    &&& run@.verify_balances == verify_balances
                    &&& run@.phase == Phase::Awaiting(first_step(run@.fresh_mint))
                    &&& run@.records.len() == 0
                    &&& run@.pending_signature.len() == 0
                    &&& run@.recipients.len() == recipients.len()
                    &&& forall|i: int|
                        0 <= i < recipients.len() ==> (#[trigger] run@.recipients[i]).owner
                            == recipients[i]
                    &&& run@.wf()
                    &&& run@.derived()
                },
            },
    {
        if recipients.len() == 0 {
            return Err(PlanError::EmptyBatch);
        }
        let (mint, fresh) = match provided_mint {
            Some(text) => match Address::parse(text) {
                Some(mint) => (mint, false),
                None => {
                    return Err(PlanError::InvalidMint);
                },
            },
            None => (fresh_mint, true),
        };
        let funding_account = match Address::associated_account(&wallet, &mint) {
            Some(account) => account,
            None => {
                return Err(PlanError::NoFundingAccount);
            },
        };
        let mut derived: Vec<Option<Address>> = Vec::new();
        let mut i: usize = 0;
        while i < recipients.len()
            invariant
                0 <= i <= recipients.len(),
                derived.len() == i,
                forall|j: int|
                    0 <= j < i ==> bytes_of(#[trigger] derived[j]) == associated_address(
                        recipients[j]@,
                        mint@,
                    ),
            decreases recipients.len() - i,
        {
            derived.push(Address::associated_account(&recipients[i], &mint));
            i = i + 1;
        }
        let accounts = match collect(&derived) {
            Ok(accounts) => accounts,
            Err(index) => {
                assert forall|j: int| 0 <= j < index implies (#[trigger] associated_address(
                    recipients[j]@,
                    mint@,
                )).is_some() by {
                    assert(derived[j].is_some());
                }
                assert(bytes_of(derived[index as int]).is_none());
                return Err(PlanError::NoRecipientAccount { index });
            },
        };
        assert forall|j: int| 0 <= j < recipients.len() implies associated_address(
            recipients[j]@,
            mint@,
        ) == Some((#[trigger] accounts[j])@) by {
            assert(derived[j] == Some(accounts[j]));
        }
        assert forall|j: int| 0 <= j < recipients.len() implies (#[trigger] associated_address(
            recipients[j]@,
            mint@,
        )).is_some() by {
            assert(derived[j] == Some(accounts[j]));
        }
        let mut targets: Vec<Target> = Vec::new();
        let mut i: usize = 0;
        while i < recipients.len()
            invariant
                0 <= i <= recipients.len(),
                accounts.len() == recipients.len(),
                targets.len() == i,
                forall|j: int|
                    0 <= j < i ==> {
                        let t = #[trigger] targets[j];
                        &&& t.owner == recipients[j]
                        &&& t.account == accounts[j]
                        &&& t.text@ == text_of_address(t.owner@)
                    },
            decreases recipients.len() - i,
        {
            let owner = recipients[i];
            let text = owner.to_text();
            targets.push(Target { owner, account: accounts[i], text });
            i = i + 1;
        }
        let run = Run {
            wallet,
            mint,
            fresh_mint: fresh,
            funding_account,
            targets,
            verify_balances,
            phase: Phase::Awaiting(if fresh {
                Step::QueryRent
            } else {
                Step::MintSupply
            }),
            pending_signature: String::new(),
            records: Vec::new(),
        };
        Ok(run)
    }

    /// The request that the run asks for next. It stays the same until
    /// `advance` is given its answer.
    pub fn pending(&self) -> (action: Action)
        ensures
            action@ == self@.action(),
    {
        proof {
            use_type_invariant(self);
        }
        let step = match self.phase {
            Phase::Finished => {
                return Action::Finish;
            },
            Phase::Failed(failure) => {
                return Action::Abort(failure);
            },
            Phase::Awaiting(step) => step,
        };
        match step {
            Step::QueryRent => Action::QueryRent { space: mint_account_space() },
            Step::CreateMint { lamports } => Action::Submit {
                instruction: create_mint_account(&self.wallet, &self.mint, lamports),
                signers: Signers::WalletAndMint,
            },
            Step::InitializeMint => Action::Submit {
                instruction: initialize_mint(&self.mint, &self.wallet, DECIMALS),
                signers: Signers::Wallet,
            },
            Step::CreateFundingAccount => Action::Submit {
                instruction: build_create_associated_account(&self.wallet, &self.wallet, &self.mint),
                signers: Signers::Wallet,
            },
            Step::MintSupply => Action::Submit {
                instruction: mint_to(
                    &self.mint,
                    &self.funding_account,
                    &self.wallet,
                    self.targets.len() as u64,
                    DECIMALS,
                ),
                signers: Signers::Wallet,
            },
            Step::CreateRecipientAccount { index } => {
                assert(self@.recipients[index as int] == self.targets[index as int]@);
                Action::Submit {
                    instruction: build_create_associated_account(
                        &self.wallet,
                        &self.targets[index].owner,
                        &self.mint,
                    ),
                    signers: Signers::Wallet,
                }
            },
            Step::Transfer { index } => {
                assert(self@.recipients[index as int] == self.targets[index as int]@);
                Action::Submit {
                    instruction: transfer(
                        &self.funding_account,
                        &self.mint,
                        &self.targets[index].account,
                        &self.wallet,
                        UNITS_PER_RECIPIENT,
                        DECIMALS,
                    ),
                    signers: Signers::Wallet,
                }
            },
            Step::CheckBalance { index } => {
                assert(self@.recipients[index as int] == self.targets[index as int]@);
                Action::QueryBalance { account: self.targets[index].account }
            },
        }
    }

    /// Takes `event`, the answer to the pending request, and moves on.
    ///
    /// Returns the run in its next state, and a notice where the event
    /// completed a recipient. The next state and the notice are those of
    /// `RunView::next` and `RunView::notice`.
    pub fn advance(self, event: Event) -> (r: (Run, Option<Progress>))
        ensures
            r.0@ == self@.next(event),
            notice_view(r.1) == self@.notice(event),
            r.0@.wf(),
            r.0@.derived(),
    {
        proof {
            use_type_invariant(&self);
            law_next_keeps_wf(self@, event);
        }
        let ghost before = self@;
        let Run {
            wallet,
            mint,
            fresh_mint,
            funding_account,
            targets,
            verify_balances,
            phase,
            pending_signature,
            records,
        } = self;
        let mut pending_signature = pending_signature;
        let mut records = records;
        let mut notice: Option<Progress> = None;
        let step = match phase {
            Phase::Awaiting(step) => step,
            _ => {
                let run = Run {
                    wallet,
                    mint,
                    fresh_mint,
                    funding_account,
                    targets,
                    verify_balances,
                    phase,
                    pending_signature,
                    records,
                };
                return (run, None);
            },
        };
        let next_phase = match step {
            Step::QueryRent => match event {
                Event::Rent(Some(lamports)) => Phase::Awaiting(Step::CreateMint { lamports }),
                Event::Rent(None) => Phase::Failed(Failure::RentUnavailable),
                _ => Phase::Failed(Failure::OutOfTurn(step)),
            },
            Step::CreateMint { .. } => settled(step, &event, Step::InitializeMint),
            Step::InitializeMint => settled(step, &event, Step::CreateFundingAccount),
            Step::CreateFundingAccount => settled(step, &event, Step::MintSupply),
            Step::MintSupply => settled(step, &event, Step::CreateRecipientAccount { index: 0 }),
            Step::CreateRecipientAccount { index } => match event {
                Event::Confirmed(_) => Phase::Awaiting(Step::Transfer { index }),
                Event::Rejected => Phase::Awaiting(Step::Transfer { index }),
                _ => Phase::Failed(Failure::OutOfTurn(step)),
            },
            Step::Transfer { index } => match event {
                Event::Confirmed(signature) => {
                    if verify_balances {
                        pending_signature = signature;
                        Phase::Awaiting(Step::CheckBalance { index })
                    } else {
                        let (phase, progress) = record(&mut records, &targets, index, signature, None);
                        pending_signature = String::new();
                        notice = Some(progress);
                        phase
                    }
                },
                Event::Rejected => Phase::Failed(Failure::Rejected(step)),
                _ => Phase::Failed(Failure::OutOfTurn(step)),
            },
            Step::CheckBalance { index } => match event {
                Event::Balance(reply) => {
                    let amount = stated_amount(reply);
                    let (phase, progress) = record(
                        &mut records,
                        &targets,
                        index,
                        pending_signature,
                        amount,
                    );
                    pending_signature = String::new();
                    notice = Some(progress);
                    phase
                },
                _ => Phase::Failed(Failure::OutOfTurn(step)),
            },
        };
        proof {
            let after = before.next(event);
            assert(records_view(records@) =~= after.records);
            assert(pending_signature@ =~= after.pending_signature);
            assert(next_phase == after.phase);
            assert(after == (RunView {
                phase: next_phase,
                pending_signature: pending_signature@,
                records: records_view(records@),
                ..before
            }));
        }
        let run = Run {
            wallet,
            mint,
            fresh_mint,
            funding_account,
            targets,
            verify_balances,
            phase: next_phase,
            pending_signature,
            records,
        };
        (run, notice)
    }

    /// Takes the answers `events`, one after another, as `advance` takes
    /// each of them, and returns the run after the last.
    pub fn replay(self, events: Vec<Event>) -> (run: Run)
        ensures
            run@ == self@.after(events@),
            run@.wf(),
            run@.derived(),
    {
        proof {
            use_type_invariant(&self);
        }
        let ghost start = self@;
        let ghost all = events@;
        let mut run = self;
        for event in it: events
            invariant
                it.seq() == all,
                run@ == start.after(all.take(it.index())),
                run@.wf(),
                run@.derived(),
        {
            proof {
                let k = it.index();
                assert(all.take(k + 1).drop_last() =~= all.take(k));
                assert(all.take(k + 1).last() == event);
            }
            let (next, _) = run.advance(event);
            run = next;
        }
        assert(all.take(all.len() as int) =~= all);
        run
    }

    /// Ends the run. A finished run gives its result: the mint as text, and
    /// the record of the transfer to each recipient of the batch, in the
    /// order of the batch. A run that is not finished gives the phase at
    /// which it stands.
    pub fn finish(self) -> (r: Result<RunResult, Phase>)
        ensures
            match r {
                Ok(result) => {
                    &&& self@.phase is Finished
                    &&& result@.token_mint == text_of_address(self@.mint@)
                    &&& result@.tokens_amount == self@.recipients.len()
                    &&& result@.tokens_amount > 0
                    &&& result@.pubkeys_and_signatures == self@.records
                    &&& result@.pubkeys_and_signatures.len() == self@.recipients.len()
                    &&& forall|i: int|
                        0 <= i < self@.recipients.len() ==> (
                        #[trigger] result@.pubkeys_and_signatures[i]).pubkey == text_of_address(
                            self@.recipients[i].owner@,
                        )
                },
                Err(phase) => !(phase is Finished) && phase == self@.phase,
            },
    {
        proof {
            use_type_invariant(&self);
        }
        match self.phase {
            Phase::Finished => {
                let token_mint = self.mint.to_text();
                Ok(RunResult::new(token_mint, self.records))
            },
            phase => Err(phase),
        }
    }

    /// Where the run stands.
    pub fn phase(&self) -> (phase: Phase)
        ensures
            phase == self@.phase,
    {
        self.phase
    }

    /// The mint that the run distributes.
    pub fn mint(&self) -> (mint: Address)
        ensures
            mint == self@.mint,
    {
        self.mint
    }

    /// The wallet's token account, from which the transfers go out.
    pub fn funding_account(&self) -> (account: Address)
        ensures
            account == self@.funding_account,
    {
        self.funding_account
    }

    /// The transfers confirmed so far, in the order of the batch.
    pub fn records(&self) -> (records: &Vec<TransferRecord>)
        ensures
            records_view(records@) == self@.records,
    {
        &self.records
    }
}

} // verus!
