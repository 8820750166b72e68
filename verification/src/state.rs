//! A run as plain values: the steps it goes through, what the chain can
//! answer, and what each answer does to it.
//!
//! A run provisions the mint and then transfers one unit to each recipient
//! of its batch, one request to the chain at a time. Where the mint has to
//! be created it asks for the rent-exempt balance, creates the mint account,
//! initializes the mint and creates the wallet's token account; in any case
//! it then mints one unit for each recipient. For each recipient in turn it
//! creates the recipient's token account, transfers one unit, and, where
//! that is wanted, asks for the recipient's balance.

use vstd::prelude::*;
use crate::address::Address;
use crate::address::associated_address;
use crate::address::text_of_address;
use crate::decimal::decimal_u64;
use crate::instruction::InstructionView;
use crate::instruction::MINT_ACCOUNT_SPACE;
use crate::instruction::create_account_instruction;
use crate::instruction::create_associated_account_instruction;
use crate::instruction::initialize_mint_instruction;
use crate::instruction::mint_to_instruction;
use crate::instruction::transfer_instruction;
use crate::progress::percent_of;
use crate::record::RecordView;

verus! {

/// Decimals of the token that is distributed.
pub const DECIMALS: u8 = 0;

/// Units that each recipient receives.
pub const UNITS_PER_RECIPIENT: u64 = 1;

/// A request to the chain that a run waits on.
#[derive(Clone, Copy, Debug, PartialEq, Eq)]
pub enum Step {
    /// The balance that keeps a mint account exempt from rent.
    QueryRent,
    /// Creating the account of the new mint, funded with `lamports`.
    CreateMint { lamports: u64 },
    /// Initializing the new mint.
    InitializeMint,
    /// Creating the wallet's token account for the new mint.
    CreateFundingAccount,
    /// Minting one unit for each recipient into the wallet's token account.
    MintSupply,
    /// Creating the token account of the recipient at `index`.
    CreateRecipientAccount { index: usize },
    /// Transferring to the recipient at `index`.
    Transfer { index: usize },
    /// The balance of the recipient at `index` after the transfer.
    CheckBalance { index: usize },
}

/// Why a run stopped before its end.
#[derive(Clone, Copy, Debug, PartialEq, Eq)]
pub enum Failure {
    /// The chain did not give the rent-exempt balance.
    RentUnavailable,
    /// The chain did not confirm the transaction of this step.
    Rejected(Step),
    /// The answer given was not an answer to the request of this step.
    OutOfTurn(Step),
}

/// Where a run stands.
#[derive(Clone, Copy, Debug, PartialEq, Eq)]
pub enum Phase {
    /// The request of this step is to be made, or is under way.
    Awaiting(Step),
    /// Every recipient has received the transfer.
    Finished,
    /// The run has stopped.
    Failed(Failure),
}

/// What the chain answered to a request.
#[derive(Clone, Debug, PartialEq, Eq)]
pub enum Event {
    /// The rent-exempt balance, or `None` where the query failed.
    Rent(Option<u64>),
    /// The transaction was confirmed, under this signature.
    Confirmed(String),
    /// The transaction was not confirmed.
    Rejected,
    /// The amount in the token account as the chain writes it, or `None`
    /// where the query failed.
    Balance(Option<String>),
}

/// The keys that sign a transaction.
#[derive(Clone, Copy, Debug, PartialEq, Eq)]
pub enum Signers {
    /// The wallet alone.
    Wallet,
    /// The wallet and the key of the new mint.
    WalletAndMint,
}

/// What a run asks for next, as plain values.
pub enum ActionView {
    QueryRent { space: usize },
    Submit { instruction: InstructionView, signers: Signers },
    QueryBalance { account: Address },
    Finish,
    Abort(Failure),
}

/// A recipient of the run: the owner's address, its text, and the token
/// account in which the owner holds the mint.
pub struct RecipientView {
    pub owner: Address,
    pub account: Address,
    pub text: Seq<char>,
}

/// Notice of one more recipient done.
pub struct ProgressView {
    pub recipient: Seq<char>,
    pub percent: nat,
}

/// The state of a run, as plain values.
pub struct RunView {
    /// The wallet: it pays, it is the authority of the mint and the owner of
    /// the funding account.
    pub wallet: Address,
    /// The mint that is distributed.
    pub mint: Address,
    /// Whether the run has to create the mint.
    pub fresh_mint: bool,
    /// The wallet's token account for the mint, from which transfers go out.
    pub funding_account: Address,
    /// The recipients, in the order of the batch.
    pub recipients: Seq<RecipientView>,
    /// Whether to ask for each recipient's balance after the transfer.
    pub verify_balances: bool,
    pub phase: Phase,
    /// The signature of the transfer whose balance check is under way.
    pub pending_signature: Seq<char>,
    /// The transfers confirmed so far, in the order of the batch.
    pub records: Seq<RecordView>,
}

/// The amount that a balance reply states: the decimal number it holds, or
/// `None` where the query failed or the reply is no such number.
pub open spec fn amount_of(reply: Option<String>) -> Option<u64> {
    match reply {
        Some(text) => decimal_u64(text@),
        None => None,
    }
}

impl Step {
    /// Whether the step belongs to the creation of a new mint.
    pub open spec fn creates_mint(self) -> bool {
        self is QueryRent || self is CreateMint || self is InitializeMint
            || self is CreateFundingAccount
    }

    /// The place of the step in the order of the steps of a run: the steps
    /// that create the mint, the minting, and then three places for each
    /// recipient.
    pub open spec fn place(self) -> nat {
        match self {
            Step::QueryRent => 0,
            Step::CreateMint { .. } => 1,
            Step::InitializeMint => 2,
            Step::CreateFundingAccount => 3,
            Step::MintSupply => 4,
            Step::CreateRecipientAccount { index } => (5 + 3 * index) as nat,
            Step::Transfer { index } => (6 + 3 * index) as nat,
            Step::CheckBalance { index } => (7 + 3 * index) as nat,
        }
    }
}

impl RunView {
    /// The number of transfers that are confirmed and recorded when the run
    /// stands at `step`.
    pub open spec fn recorded_at(step: Step) -> nat {
        match step {
            Step::CreateRecipientAccount { index } => index as nat,
            Step::Transfer { index } => index as nat,
            Step::CheckBalance { index } => index as nat,
            _ => 0,
        }
    }

    /// What holds of every run: the batch is not empty, the run stands inside
    /// it, and the records are those of the recipients before that place, in
    /// their order.
    pub open spec fn wf(self) -> bool {
        &&& 0 < self.recipients.len() <= usize::MAX
        &&& self.records.len() <= self.recipients.len()
        &&& forall|i: int|
            0 <= i < self.records.len() ==> (#[trigger] self.records[i]).pubkey
                == self.recipients[i].text
        &&& match self.phase {
            Phase::Awaiting(step) => {
                &&& self.records.len() == Self::recorded_at(step)
                &&& self.records.len() < self.recipients.len()
                &&& step.creates_mint() ==> self.fresh_mint
                &&& step is CheckBalance ==> self.verify_balances
            },
            Phase::Finished => self.records.len() == self.recipients.len(),
            Phase::Failed(_) => true,
        }
    }

    /// The request that the run asks for in its present state.
    pub open spec fn action(self) -> ActionView {
        match self.phase {
            Phase::Finished => ActionView::Finish,
            Phase::Failed(failure) => ActionView::Abort(failure),
            Phase::Awaiting(step) => match step {
                Step::QueryRent => ActionView::QueryRent { space: MINT_ACCOUNT_SPACE },
                Step::CreateMint { lamports } => ActionView::Submit {
                    instruction: create_account_instruction(
                        self.wallet@,
                        self.mint@,
                        lamports,
                        MINT_ACCOUNT_SPACE as u64,
                    ),
                    signers: Signers::WalletAndMint,
                },
                Step::InitializeMint => ActionView::Submit {
                    instruction: initialize_mint_instruction(
                        self.mint@,
                        self.wallet@,
                        self.wallet@,
                        DECIMALS,
                    ),
                    signers: Signers::Wallet,
                },
                Step::CreateFundingAccount => ActionView::Submit {
                    instruction: create_associated_account_instruction(
                        self.wallet@,
                        self.wallet@,
                        self.mint@,
                    ),
                    signers: Signers::Wallet,
                },
                Step::MintSupply => ActionView::Submit {
                    instruction: mint_to_instruction(
                        self.mint@,
                        self.funding_account@,
                        self.wallet@,
                        self.recipients.len() as u64,
                        DECIMALS,
                    ),
                    signers: Signers::Wallet,
                },
                Step::CreateRecipientAccount { index } => ActionView::Submit {
                    instruction: create_associated_account_instruction(
                        self.wallet@,
                        self.recipients[index as int].owner@,
                        self.mint@,
                    ),
                    signers: Signers::Wallet,
                },
                Step::Transfer { index } => ActionView::Submit {
                    instruction: transfer_instruction(
                        self.funding_account@,
                        self.mint@,
                        self.recipients[index as int].account@,
                        self.wallet@,
                        UNITS_PER_RECIPIENT,
                        DECIMALS,
                    ),
                    signers: Signers::Wallet,
                },
                Step::CheckBalance { index } => ActionView::QueryBalance {
                    account: self.recipients[index as int].account,
                },
            },
        }
    }

    /// The run at another phase.
    pub open spec fn at(self, phase: Phase) -> RunView {
        RunView { phase, ..self }
    }

    /// The run after the transfer to the recipient at `index` is recorded:
    /// it turns to the next recipient, or is finished after the last.
    pub open spec fn recorded(self, index: usize, signature: Seq<char>, amount: Option<u64>) -> RunView {
        RunView {
            phase: if index + 1 < self.recipients.len() {
                Phase::Awaiting(Step::CreateRecipientAccount { index: (index + 1) as usize })
            } else {
                Phase::Finished
            },
            pending_signature: Seq::empty(),
            records: self.records.push(
                RecordView { pubkey: self.recipients[index as int].text, signature, amount },
            ),
            ..self
        }
    }

    /// The run after `event` has answered its request.
    ///
    /// A confirmed transaction moves the run to its next step. A failure
    /// stops it, except where the recipient's token account could not be
    /// created, which is taken to mean that it exists. An answer of the
    /// wrong kind stops it too. A run that is finished or has stopped stays
    /// as it is.
    pub open spec fn next(self, event: Event) -> RunView {
        match self.phase {
            Phase::Finished => self,
            Phase::Failed(_) => self,
            Phase::Awaiting(step) => match (step, event) {
                (Step::QueryRent, Event::Rent(Some(lamports))) => self.at(
                    Phase::Awaiting(Step::CreateMint { lamports }),
                ),
                (Step::QueryRent, Event::Rent(None)) => self.at(
                    Phase::Failed(Failure::RentUnavailable),
                ),
                (Step::CreateMint { .. }, Event::Confirmed(_)) => self.at(
                    Phase::Awaiting(Step::InitializeMint),
                ),
                (Step::InitializeMint, Event::Confirmed(_)) => self.at(
                    Phase::Awaiting(Step::CreateFundingAccount),
                ),
                (Step::CreateFundingAccount, Event::Confirmed(_)) => self.at(
                    Phase::Awaiting(Step::MintSupply),
                ),
                (Step::MintSupply, Event::Confirmed(_)) => self.at(
                    Phase::Awaiting(Step::CreateRecipientAccount { index: 0 }),
                ),
                (Step::CreateRecipientAccount { index }, Event::Confirmed(_)) => self.at(
                    Phase::Awaiting(Step::Transfer { index }),
                ),
                (Step::CreateRecipientAccount { index }, Event::Rejected) => self.at(
                    Phase::Awaiting(Step::Transfer { index }),
                ),
                (Step::Transfer { index }, Event::Confirmed(signature)) => if self.verify_balances {
                    RunView {
                        phase: Phase::Awaiting(Step::CheckBalance { index }),
                        pending_signature: signature@,
                        ..self
                    }
                } else {
                    self.recorded(index, signature@, None)
                },
                (Step::CheckBalance { index }, Event::Balance(reply)) => self.recorded(
                    index,
                    self.pending_signature,
                    amount_of(reply),
                ),
                (Step::CreateMint { .. }, Event::Rejected) => self.at(
                    Phase::Failed(Failure::Rejected(step)),
                ),
                (Step::InitializeMint, Event::Rejected) => self.at(
                    Phase::Failed(Failure::Rejected(step)),
                ),
                (Step::CreateFundingAccount, Event::Rejected) => self.at(
                    Phase::Failed(Failure::Rejected(step)),
                ),
                (Step::MintSupply, Event::Rejected) => self.at(
                    Phase::Failed(Failure::Rejected(step)),
                ),
                (Step::Transfer { .. }, Event::Rejected) => self.at(
                    Phase::Failed(Failure::Rejected(step)),
                ),
                _ => self.at(Phase::Failed(Failure::OutOfTurn(step))),
            },
        }
    }

    /// The notice that goes with `event`: the recipient that it completes and
    /// the percentage of the batch done with it, or `None` where the event
    /// completes no recipient.
    pub open spec fn notice(self, event: Event) -> Option<ProgressView> {
        match self.phase {
            Phase::Awaiting(Step::Transfer { index }) => if event is Confirmed
                && !self.verify_balances {
                Some(self.done(index))
            } else {
                None
            },
            Phase::Awaiting(Step::CheckBalance { index }) => if event is Balance {
                Some(self.done(index))
            } else {
                None
            },
            _ => None,
        }
    }

    /// The notice for the recipient at `index`.
    pub open spec fn done(self, index: usize) -> ProgressView {
        ProgressView {
            recipient: self.recipients[index as int].text,
            percent: percent_of((index + 1) as nat, self.recipients.len()),
        }
    }
}


/// The step with which a run begins: minting, where the mint exists;
/// else the query that comes before its creation.
pub open spec fn first_step(fresh: bool) -> Step {
    if fresh {
        Step::QueryRent
    } else {
        Step::MintSupply
    }
}

impl RunView {
    /// Whether the accounts and texts that the run holds are those that
    /// belong to its wallet, its mint and its recipients.
    pub open spec fn derived(self) -> bool {
        &&& associated_address(self.wallet@, self.mint@) == Some(self.funding_account@)
        &&& forall|i: int|
            0 <= i < self.recipients.len() ==> {
                let r = #[trigger] self.recipients[i];
                &&& associated_address(r.owner@, self.mint@) == Some(r.account@)
                &&& r.text == text_of_address(r.owner@)
            }
    }
}

/// Every step of a run keeps what holds of every run.
pub proof fn law_next_keeps_wf(run: RunView, event: Event)
    requires
        run.wf(),
    ensures
        run.next(event).wf(),
        run.next(event).derived() == run.derived(),
{
    let after = run.next(event);
    match run.phase {
        Phase::Awaiting(Step::Transfer { index }) => {
            if event is Confirmed && !run.verify_balances {
                assert forall|i: int| 0 <= i < after.records.len() implies (
                #[trigger] after.records[i]).pubkey == after.recipients[i].text by {
                    if i < run.records.len() {
                        assert(after.records[i] == run.records[i]);
                    }
                }
            }
        },
        Phase::Awaiting(Step::CheckBalance { index }) => {
            if event is Balance {
                assert forall|i: int| 0 <= i < after.records.len() implies (
                #[trigger] after.records[i]).pubkey == after.recipients[i].text by {
                    if i < run.records.len() {
                        assert(after.records[i] == run.records[i]);
                    }
                }
            }
        },
        _ => {},
    }
}

} // verus!
