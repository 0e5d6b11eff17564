//! The swap orchestrator: a state machine that leads one swap from decimal
//! resolution to the balances read after submission.
//!
//! The orchestrator performs no outside work itself. In each state it names
//! the one action that is due ([`Orchestrator::action`]); its caller performs
//! the action and hands the outcome back as an [`Event`]
//! ([`Orchestrator::step`]).

use vstd::prelude::*;
use crate::address::{is_native_mint, Address, NATIVE_DECIMALS};
use crate::amount::UiAmount;
use crate::balance::{
    balance_of, balance_query, get_token_balance, query_for, BalanceError, BalanceQuery,
    BalanceReply,
};
use crate::mint::{get_mint_info, resolved_mint, AccountLookup, MintError};
use crate::quote::{Quote, QuoteConfig, QuoteError, QuoteReply, QuoteRequest};
use crate::transaction::{
    Blockhash, BuiltSwap, SignedTransaction, SimulationOutcome, UnsignedSwapTransaction,
};

verus! {

/// What one swap is asked to do.
#[derive(Clone, Copy, Debug, PartialEq, Eq)]
pub struct SwapParams {
    /// The public identity that owns the funds and signs the transaction.
    pub owner: Address,
    pub token_in: Address,
    pub token_out: Address,
    /// Amount to swap, in base units of `token_in`.
    pub amount_in: u64,
    /// Largest tolerated price movement, in basis points.
    pub slippage_bps: u64,
}

/// The decimal precisions of the two tokens.
#[derive(Clone, Copy, Debug, PartialEq, Eq, Structural)]
pub struct Decimals {
    pub token_in: u8,
    pub token_out: u8,
}

/// The owner's balances of the two tokens.
#[derive(Clone, Copy, Debug, PartialEq, Eq, Structural)]
pub struct Balances {
    pub token_in: UiAmount,
    pub token_out: UiAmount,
}

/// The queries that answer for the owner's balances of the two tokens.
#[derive(Clone, Copy, Debug, PartialEq, Eq)]
pub struct Queries {
    pub token_in: BalanceQuery,
    pub token_out: BalanceQuery,
}

/// What is known once both balances were read before the swap.
#[derive(Clone, Copy, Debug, PartialEq, Eq)]
pub struct Prepared {
    pub decimals: Decimals,
    pub queries: Queries,
    pub pre: Balances,
}

/// What is known once a quote was obtained.
#[derive(Clone, Debug, PartialEq, Eq)]
pub struct Priced {
    pub prepared: Prepared,
    pub quote: Quote,
}

/// What is known once the transaction was finalized: the freshness token
/// that was fetched for it and the transaction signed over that token.
#[derive(Clone, Debug, PartialEq, Eq)]
pub struct Finalized {
    pub priced: Priced,
    pub blockhash: Blockhash,
    pub signed: SignedTransaction,
}

/// What is known once the signed transaction was simulated. The outcome is
/// advisory: it is kept for the caller and does not gate submission.
#[derive(Clone, Debug, PartialEq, Eq)]
pub struct Settled {
    pub finalized: Finalized,
    pub simulation: SimulationOutcome,
}

/// The balances read after submission, or the reason why they are missing.
/// A gap here is no failure of the swap, which has already committed.
#[derive(Clone, Copy, Debug, PartialEq, Eq, Structural)]
pub enum PostCheck {
    Read(Balances),
    Gap(BalanceError),
}

/// Why the freshness token could not be renewed or the transaction signed.
#[derive(Clone, Copy, Debug, PartialEq, Eq, Structural)]
pub enum FinalizationError {
    /// The current freshness token could not be fetched.
    BlockhashUnavailable,
    /// The signer produced no transaction.
    SigningFailed,
    /// The signed transaction carries another freshness token than the one
    /// fetched for it.
    StaleBlockhash,
}

/// Why a swap was abandoned, by the stage that failed.
#[derive(Clone, Copy, Debug, PartialEq, Eq, Structural)]
pub enum SwapError {
    /// Both tokens are the native asset.
    InvalidPair,
    /// A mint could not be resolved. Nothing was read or requested yet.
    Metadata(MintError),
    /// A balance could not be read before the swap.
    Balance(BalanceError),
    /// The aggregation service gave no quote. Nothing has happened on chain.
    QuoteUnavailable(QuoteError),
    /// The building service gave no transaction. Nothing has happened on
    /// chain.
    Build,
    /// The transaction could not be finalized. Nothing has happened on chain.
    Finalization(FinalizationError),
    /// The dry run could not be made at all.
    Simulation,
    /// The network rejected the transaction or did not confirm it. Funds may
    /// have moved.
    Submission,
    /// An event arrived that does not answer the action that was due.
    UnexpectedEvent,
}

/// The outcome of submitting the signed transaction.
#[derive(Clone, Copy, Debug, PartialEq, Eq, Structural)]
pub enum Submission {
    Confirmed,
    Failed,
}

/// Where a swap stands, with what has been learned so far.
#[derive(Clone, Debug, PartialEq, Eq)]
pub enum State {
    /// Waiting for the mint account of the input token.
    ResolvingIn,
    /// Waiting for the mint account of the output token.
    ResolvingOut { decimals_in: u8 },
    /// Waiting for the balance of the input token before the swap.
    ReadingPreIn { decimals: Decimals, query: BalanceQuery },
    /// Waiting for the balance of the output token before the swap.
    ReadingPreOut { decimals: Decimals, queries: Queries, pre_in: UiAmount },
    /// Waiting for a quote.
    Quoting(Prepared),
    /// Waiting for the transaction built from the quote.
    Building(Priced),
    /// Waiting for the current freshness token.
    FetchingBlockhash { priced: Priced, unsigned: UnsignedSwapTransaction },
    /// Waiting for the transaction signed over the fetched freshness token.
    Signing { priced: Priced, unsigned: UnsignedSwapTransaction, blockhash: Blockhash },
    /// Waiting for the dry run of the signed transaction.
    Simulating(Finalized),
    /// Waiting for the confirmation of the submitted transaction.
    Submitting(Settled),
    /// Waiting for the balance of the input token after the swap.
    ReadingPostIn(Settled),
    /// Waiting for the balance of the output token after the swap.
    ReadingPostOut { settled: Settled, post_in: UiAmount },
    /// The swap committed.
    Done { settled: Settled, post: PostCheck },
    /// The swap was abandoned.
    Failed(SwapError),
}

/// The outcome of an action, handed back to the orchestrator.
#[derive(Clone, Debug, PartialEq, Eq)]
pub enum Event {
    /// The answer to [`Action::FetchAccount`].
    Account(AccountLookup),
    /// The answer to [`Action::QueryBalance`].
    Balance(BalanceReply),
    /// The answer to [`Action::RequestQuote`].
    Quote(QuoteReply),
    /// The answer to [`Action::BuildTransaction`]; `None` where the service
    /// failed.
    Built(Option<BuiltSwap>),
    /// The answer to [`Action::FetchBlockhash`]; `None` where the fetch
    /// failed.
    Blockhash(Option<Blockhash>),
    /// The answer to [`Action::Sign`]; `None` where signing failed.
    Signed(Option<SignedTransaction>),
    /// The answer to [`Action::Simulate`]; `None` where no dry run was made.
    Simulated(Option<SimulationOutcome>),
    /// The answer to [`Action::Submit`].
    Submitted(Submission),
}

/// The outside work that is due in a state.
#[derive(Clone, Copy, Debug, PartialEq, Eq)]
pub enum Action {
    /// Fetch the account at the address of a mint.
    FetchAccount(Address),
    /// Query a balance.
    QueryBalance(BalanceQuery),
    /// Ask the aggregation service for a quote.
    RequestQuote(QuoteRequest),
    /// Have a transaction built from the quote held in the state, for the
    /// given signer.
    BuildTransaction { user: Address },
    /// Fetch the current freshness token from the network.
    FetchBlockhash,
    /// Write the given freshness token over the placeholder of the unsigned
    /// transaction held in the state, then sign the transaction.
    Sign { recent_blockhash: Blockhash },
    /// Dry-run the signed transaction held in the state.
    Simulate,
    /// Submit the signed transaction held in the state and wait for its
    /// confirmation.
    Submit,
    /// Nothing is due: the swap is done or was abandoned.
    Stop,
}

/// The milestones of a swap, in the order in which they are reached.
#[derive(Clone, Copy, Debug, PartialEq, Eq, Structural)]
pub enum Milestone {
    Init,
    DecimalsResolved,
    BalancesReadPre,
    Quoted,
    TxBuilt,
    TxFinalized,
    Simulated,
    Submitted,
    Done,
    Failed,
}

/// One swap in progress.
#[derive(Clone, Debug, PartialEq, Eq)]
pub struct Orchestrator {
    pub params: SwapParams,
    pub state: State,
}

/// The quote request of a swap: the caller's slippage, passed explicitly,
/// and every route allowed.
pub open spec fn quote_request(params: SwapParams) -> QuoteRequest {
    QuoteRequest {
        input_mint: params.token_in,
        output_mint: params.token_out,
        amount: params.amount_in,
        config: QuoteConfig { slippage_bps: Some(params.slippage_bps), only_direct_routes: false },
    }
}

/// The state in which a swap begins. A native side has the fixed precision
/// and is never looked up; two native sides are no pair to swap.
pub open spec fn initial_state(params: SwapParams) -> State {
    if params.token_in.is_native() {
        if params.token_out.is_native() {
            State::Failed(SwapError::InvalidPair)
        } else {
            State::ResolvingOut { decimals_in: NATIVE_DECIMALS }
        }
    } else {
        State::ResolvingIn
    }
}

/// The orchestrator of a swap before its first action.
pub open spec fn start(params: SwapParams) -> Orchestrator {
    Orchestrator { params, state: initial_state(params) }
}

impl State {
    /// What is known from simulation on, where the swap has come that far.
    pub open spec fn settled(self) -> Option<Settled> {
        match self {
            State::Submitting(settled) => Some(settled),
            State::ReadingPostIn(settled) => Some(settled),
            State::ReadingPostOut { settled, .. } => Some(settled),
            State::Done { settled, .. } => Some(settled),
            _ => None,
        }
    }

    /// What is known from finalization on, where the swap has come that far.
    pub open spec fn finalized(self) -> Option<Finalized> {
        match self {
            State::Simulating(finalized) => Some(finalized),
            _ => match self.settled() {
                Some(settled) => Some(settled.finalized),
                None => None,
            },
        }
    }

    /// The quote and what was known before it, once a quote was obtained.
    pub open spec fn priced(self) -> Option<Priced> {
        match self {
            State::Building(priced) => Some(priced),
            State::FetchingBlockhash { priced, .. } => Some(priced),
            State::Signing { priced, .. } => Some(priced),
            _ => match self.finalized() {
                Some(finalized) => Some(finalized.priced),
                None => None,
            },
        }
    }

    /// What was known before the quote, once both balances were read.
    pub open spec fn prepared(self) -> Option<Prepared> {
        match self {
            State::Quoting(prepared) => Some(prepared),
            _ => match self.priced() {
                Some(priced) => Some(priced.prepared),
                None => None,
            },
        }
    }

    /// The transaction as built, while it waits to be finalized.
    pub open spec fn unsigned(self) -> Option<UnsignedSwapTransaction> {
        match self {
            State::FetchingBlockhash { unsigned, .. } => Some(unsigned),
            State::Signing { unsigned, .. } => Some(unsigned),
            _ => None,
        }
    }

    /// The precisions of the two tokens, once both are resolved.
    pub open spec fn decimals(self) -> Option<Decimals> {
        match self {
            State::ReadingPreIn { decimals, .. } => Some(decimals),
            State::ReadingPreOut { decimals, .. } => Some(decimals),
            State::Quoting(prepared) => Some(prepared.decimals),
            _ => match self.priced() {
                Some(priced) => Some(priced.prepared.decimals),
                None => None,
            },
        }
    }

    /// Whether nothing more will happen.
    pub open spec fn is_terminal(self) -> bool {
        self is Done || self is Failed
    }

    /// The state after an event that does not answer the action that was
    /// due: a swap in progress is abandoned, a finished one stays as it is.
    pub open spec fn unexpected(self) -> State {
        if self.is_terminal() {
            self
        } else {
            State::Failed(SwapError::UnexpectedEvent)
        }
    }
}

/// The state entered once both precisions are known: the balance of the
/// input token is read first.
pub open spec fn resolved_state(params: SwapParams, decimals: Decimals) -> State {
    match query_for(params.owner, params.token_in) {
        Ok(query) => State::ReadingPreIn { decimals, query },
        Err(e) => State::Failed(SwapError::Balance(e)),
    }
}

impl Orchestrator {

    /// The state after the answer to an account lookup.
    pub open spec fn after_account(self, lookup: AccountLookup) -> State {
        match self.state {
            State::ResolvingIn => match resolved_mint(lookup, None) {
                Err(e) => State::Failed(SwapError::Metadata(e)),
                Ok(mint) => if self.params.token_out.is_native() {
                    resolved_state(
                        self.params,
                        Decimals { token_in: mint.decimals, token_out: NATIVE_DECIMALS },
                    )
                } else {
                    State::ResolvingOut { decimals_in: mint.decimals }
                },
            },
            State::ResolvingOut { decimals_in } => match resolved_mint(lookup, None) {
                Err(e) => State::Failed(SwapError::Metadata(e)),
                Ok(mint) => resolved_state(
                    self.params,
                    Decimals { token_in: decimals_in, token_out: mint.decimals },
                ),
            },
            other => other.unexpected(),
        }
    }

    /// The state after the answer to a balance query.
    pub open spec fn after_balance(self, reply: BalanceReply) -> State {
        match self.state {
            State::ReadingPreIn { decimals, query } => match balance_of(
                self.params.token_in,
                decimals.token_in,
                reply,
            ) {
                Err(e) => State::Failed(SwapError::Balance(e)),
                Ok(pre_in) => match query_for(self.params.owner, self.params.token_out) {
                    Err(e) => State::Failed(SwapError::Balance(e)),
                    Ok(query_out) => State::ReadingPreOut {
                        decimals,
                        queries: Queries { token_in: query, token_out: query_out },
                        pre_in,
                    },
                },
            },
            State::ReadingPreOut { decimals, queries, pre_in } => match balance_of(
                self.params.token_out,
                decimals.token_out,
                reply,
            ) {
                Err(e) => State::Failed(SwapError::Balance(e)),
                Ok(pre_out) => State::Quoting(
                    Prepared {
                        decimals,
                        queries,
                        pre: Balances { token_in: pre_in, token_out: pre_out },
                    },
                ),
            },
            State::ReadingPostIn(settled) => match balance_of(
                self.params.token_in,
                settled.finalized.priced.prepared.decimals.token_in,
                reply,
            ) {
                Err(e) => State::Done { settled, post: PostCheck::Gap(e) },
                Ok(post_in) => State::ReadingPostOut { settled, post_in },
            },
            State::ReadingPostOut { settled, post_in } => match balance_of(
                self.params.token_out,
                settled.finalized.priced.prepared.decimals.token_out,
                reply,
            ) {
                Err(e) => State::Done { settled, post: PostCheck::Gap(e) },
                Ok(post_out) => State::Done {
                    settled,
                    post: PostCheck::Read(Balances { token_in: post_in, token_out: post_out }),
                },
            },
            other => other.unexpected(),
        }
    }

    /// The state after the answer to a quote request.
    pub open spec fn after_quote(self, reply: QuoteReply) -> State {
        match self.state {
            State::Quoting(prepared) => match reply {
                QuoteReply::Quoted(quote) => State::Building(Priced { prepared, quote }),
                QuoteReply::Failed(e) => State::Failed(SwapError::QuoteUnavailable(e)),
            },
            other => other.unexpected(),
        }
    }

    /// The state after the answer of the building service. The service's
    /// expiry marker is dropped.
    pub open spec fn after_built(self, reply: Option<BuiltSwap>) -> State {
        match self.state {
            State::Building(priced) => match reply {
                Some(built) => State::FetchingBlockhash { priced, unsigned: built.transaction },
                None => State::Failed(SwapError::Build),
            },
            other => other.unexpected(),
        }
    }

    /// The state after the fetch of the freshness token.
    pub open spec fn after_blockhash(self, reply: Option<Blockhash>) -> State {
        match self.state {
            State::FetchingBlockhash { priced, unsigned } => match reply {
                Some(blockhash) => State::Signing { priced, unsigned, blockhash },
                None => State::Failed(
                    SwapError::Finalization(FinalizationError::BlockhashUnavailable),
                ),
            },
            other => other.unexpected(),
        }
    }

    /// The state after signing. A transaction signed over any other
    /// freshness token than the fetched one is refused.
    pub open spec fn after_signed(self, reply: Option<SignedTransaction>) -> State {
        match self.state {
            State::Signing { priced, unsigned, blockhash } => match reply {
                Some(signed) => if signed.recent_blockhash == blockhash {
                    State::Simulating(Finalized { priced, blockhash, signed })
                } else {
                    State::Failed(SwapError::Finalization(FinalizationError::StaleBlockhash))
                },
                None => State::Failed(SwapError::Finalization(FinalizationError::SigningFailed)),
            },
            other => other.unexpected(),
        }
    }

    /// The state after the dry run. Whatever the dry run reported, the
    /// transaction is submitted next.
    pub open spec fn after_simulated(self, reply: Option<SimulationOutcome>) -> State {
        match self.state {
            State::Simulating(finalized) => match reply {
                Some(simulation) => State::Submitting(Settled { finalized, simulation }),
                None => State::Failed(SwapError::Simulation),
            },
            other => other.unexpected(),
        }
    }

    /// The state after submission.
    pub open spec fn after_submitted(self, reply: Submission) -> State {
        match self.state {
            State::Submitting(settled) => match reply {
                Submission::Confirmed => State::ReadingPostIn(settled),
                Submission::Failed => State::Failed(SwapError::Submission),
            },
            other => other.unexpected(),
        }
    }

    /// The orchestrator after one event.
    pub open spec fn next(self, event: Event) -> Orchestrator {
        Orchestrator {
            params: self.params,
            state: match event {
                Event::Account(lookup) => self.after_account(lookup),
                Event::Balance(reply) => self.after_balance(reply),
                Event::Quote(reply) => self.after_quote(reply),
                Event::Built(reply) => self.after_built(reply),
                Event::Blockhash(reply) => self.after_blockhash(reply),
                Event::Signed(reply) => self.after_signed(reply),
                Event::Simulated(reply) => self.after_simulated(reply),
                Event::Submitted(reply) => self.after_submitted(reply),
            },
        }
    }

    /// The action that is due.
    pub open spec fn pending(self) -> Action {
        match self.state {
            State::ResolvingIn => Action::FetchAccount(self.params.token_in),
            State::ResolvingOut { .. } => Action::FetchAccount(self.params.token_out),
            State::ReadingPreIn { query, .. } => Action::QueryBalance(query),
            State::ReadingPreOut { queries, .. } => Action::QueryBalance(queries.token_out),
            State::Quoting(_) => Action::RequestQuote(quote_request(self.params)),
            State::Building(_) => Action::BuildTransaction { user: self.params.owner },
            State::FetchingBlockhash { .. } => Action::FetchBlockhash,
            State::Signing { blockhash, .. } => Action::Sign { recent_blockhash: blockhash },
            State::Simulating(_) => Action::Simulate,
            State::Submitting(_) => Action::Submit,
            State::ReadingPostIn(settled) => Action::QueryBalance(
                settled.finalized.priced.prepared.queries.token_in,
            ),
            State::ReadingPostOut { settled, .. } => Action::QueryBalance(
                settled.finalized.priced.prepared.queries.token_out,
            ),
            State::Done { .. } => Action::Stop,
            State::Failed(_) => Action::Stop,
        }
    }

    /// The last milestone that was reached.
    pub open spec fn reached(self) -> Milestone {
        match self.state {
            State::ResolvingIn => Milestone::Init,
            State::ResolvingOut { .. } => Milestone::Init,
            State::ReadingPreIn { .. } => Milestone::DecimalsResolved,
            State::ReadingPreOut { .. } => Milestone::DecimalsResolved,
            State::Quoting(_) => Milestone::BalancesReadPre,
            State::Building(_) => Milestone::Quoted,
            State::FetchingBlockhash { .. } => Milestone::TxBuilt,
            State::Signing { .. } => Milestone::TxBuilt,
            State::Simulating(_) => Milestone::TxFinalized,
            State::Submitting(_) => Milestone::Simulated,
            State::ReadingPostIn(_) => Milestone::Submitted,
            State::ReadingPostOut { .. } => Milestone::Submitted,
            State::Done { .. } => Milestone::Done,
            State::Failed(_) => Milestone::Failed,
        }
    }
}

/// Begins a swap of `amount_in` base units of `token_in` for `token_out`, on
/// behalf of `owner`.
///
/// The result holds the first action that is due. Where one side is the
/// native asset, only the other side's mint is looked up; a swap of the
/// native asset for itself is refused at once.
pub fn swap(
    owner: Address,
    token_in: Address,
    token_out: Address,
    amount_in: u64,
    slippage_bps: u64,
) -> (r: Orchestrator)
    ensures
        r == start(SwapParams { owner, token_in, token_out, amount_in, slippage_bps }),
{
    let params = SwapParams { owner, token_in, token_out, amount_in, slippage_bps };
    let state = if is_native_mint(&token_in) {
        if is_native_mint(&token_out) {
            State::Failed(SwapError::InvalidPair)
        } else {
            State::ResolvingOut { decimals_in: NATIVE_DECIMALS }
        }
    } else {
        State::ResolvingIn
    };
    Orchestrator { params, state }
}

fn unexpected_state(state: State) -> (r: State)
    ensures
        r == state.unexpected(),
{
    match state {
        State::Done { settled, post } => State::Done { settled, post },
        State::Failed(e) => State::Failed(e),
        _ => State::Failed(SwapError::UnexpectedEvent),
    }
}

fn enter_resolved(params: &SwapParams, decimals: Decimals) -> (r: State)
    ensures
        r == resolved_state(*params, decimals),
{
    match balance_query(&params.owner, &params.token_in) {
        Ok(query) => State::ReadingPreIn { decimals, query },
        Err(e) => State::Failed(SwapError::Balance(e)),
    }
}

impl Orchestrator {
    fn on_account(self, lookup: AccountLookup) -> (r: State)
        ensures
            r == self.after_account(lookup),
    {
        let params = self.params;
        match self.state {
            State::ResolvingIn => match get_mint_info(&lookup, None) {
                Err(e) => State::Failed(SwapError::Metadata(e)),
                Ok(mint) => {
                    if is_native_mint(&params.token_out) {
                        enter_resolved(
                            &params,
                            Decimals { token_in: mint.decimals, token_out: NATIVE_DECIMALS },
                        )
                    } else {
                        State::ResolvingOut { decimals_in: mint.decimals }
                    }
                },
            },
            State::ResolvingOut { decimals_in } => match get_mint_info(&lookup, None) {
                Err(e) => State::Failed(SwapError::Metadata(e)),
                Ok(mint) => enter_resolved(
                    &params,
                    Decimals { token_in: decimals_in, token_out: mint.decimals },
                ),
            },
            other => unexpected_state(other),
        }
    }

    fn on_balance(self, reply: BalanceReply) -> (r: State)
        ensures
            r == self.after_balance(reply),
    {
        let params = self.params;
        match self.state {
            State::ReadingPreIn { decimals, query } => {
                match get_token_balance(&params.token_in, decimals.token_in, &reply) {
                    Err(e) => State::Failed(SwapError::Balance(e)),
                    Ok(pre_in) => match balance_query(&params.owner, &params.token_out) {
                        Err(e) => State::Failed(SwapError::Balance(e)),
                        Ok(query_out) => State::ReadingPreOut {
                            decimals,
                            queries: Queries { token_in: query, token_out: query_out },
                            pre_in,
                        },
                    },
                }
            },
            State::ReadingPreOut { decimals, queries, pre_in } => {
                match get_token_balance(&params.token_out, decimals.token_out, &reply) {
                    Err(e) => State::Failed(SwapError::Balance(e)),
                    Ok(pre_out) => State::Quoting(
                        Prepared {
                            decimals,
                            queries,
                            pre: Balances { token_in: pre_in, token_out: pre_out },
                        },
                    ),
                }
            },
            State::ReadingPostIn(settled) => {
                let decimals = settled.finalized.priced.prepared.decimals.token_in;
                match get_token_balance(&params.token_in, decimals, &reply) {
                    Err(e) => State::Done { settled, post: PostCheck::Gap(e) },
                    Ok(post_in) => State::ReadingPostOut { settled, post_in },
                }
            },
            State::ReadingPostOut { settled, post_in } => {
                let decimals = settled.finalized.priced.prepared.decimals.token_out;
                match get_token_balance(&params.token_out, decimals, &reply) {
                    Err(e) => State::Done { settled, post: PostCheck::Gap(e) },
                    Ok(post_out) => State::Done {
                        settled,
                        post: PostCheck::Read(Balances { token_in: post_in, token_out: post_out }),
                    },
                }
            },
            other => unexpected_state(other),
        }
    }

    fn on_quote(self, reply: QuoteReply) -> (r: State)
        ensures
            r == self.after_quote(reply),
    {
        match self.state {
            State::Quoting(prepared) => match reply {
                QuoteReply::Quoted(quote) => State::Building(Priced { prepared, quote }),
                QuoteReply::Failed(e) => State::Failed(SwapError::QuoteUnavailable(e)),
            },
            other => unexpected_state(other),
        }
    }

    fn on_built(self, reply: Option<BuiltSwap>) -> (r: State)
        ensures
            r == self.after_built(reply),
    {
        match self.state {
            State::Building(priced) => match reply {
                Some(built) => State::FetchingBlockhash { priced, unsigned: built.transaction },
                None => State::Failed(SwapError::Build),
            },
            other => unexpected_state(other),
        }
    }

    fn on_blockhash(self, reply: Option<Blockhash>) -> (r: State)
        ensures
            r == self.after_blockhash(reply),
    {
        match self.state {
            State::FetchingBlockhash { priced, unsigned } => match reply {
                Some(blockhash) => State::Signing { priced, unsigned, blockhash },
                None => State::Failed(
                    SwapError::Finalization(FinalizationError::BlockhashUnavailable),
                ),
            },
            other => unexpected_state(other),
        }
    }

    fn on_signed(self, reply: Option<SignedTransaction>) -> (r: State)
        ensures
            r == self.after_signed(reply),
    {
        match self.state {
            State::Signing { priced, unsigned, blockhash } => match reply {
                Some(signed) => {
                    if signed.recent_blockhash == blockhash {
                        State::Simulating(Finalized { priced, blockhash, signed })
                    } else {
                        State::Failed(SwapError::Finalization(FinalizationError::StaleBlockhash))
                    }
                },
                None => State::Failed(SwapError::Finalization(FinalizationError::SigningFailed)),
            },
            other => unexpected_state(other),
        }
    }

    fn on_simulated(self, reply: Option<SimulationOutcome>) -> (r: State)
        ensures
            r == self.after_simulated(reply),
    {
        match self.state {
            State::Simulating(finalized) => match reply {
                Some(simulation) => State::Submitting(Settled { finalized, simulation }),
                None => State::Failed(SwapError::Simulation),
            },
            other => unexpected_state(other),
        }
    }

    fn on_submitted(self, reply: Submission) -> (r: State)
        ensures
            r == self.after_submitted(reply),
    {
        match self.state {
            State::Submitting(settled) => match reply {
                Submission::Confirmed => State::ReadingPostIn(settled),
                Submission::Failed => State::Failed(SwapError::Submission),
            },
            other => unexpected_state(other),
        }
    }

    /// Takes in the outcome of the action that was due and moves on.
    ///
    /// A failed outside call abandons the swap with the error of its stage,
    /// except after submission, where a balance that cannot be read leaves a
    /// gap in the report of a swap that is done. An event that does not
    /// answer the action that was due abandons a swap in progress and leaves
    /// a finished one as it is.
    pub fn step(self, event: Event) -> (r: Orchestrator)
        ensures
            r == self.next(event),
    {
        let params = self.params;
        let state = match event {
            Event::Account(lookup) => self.on_account(lookup),
            Event::Balance(reply) => self.on_balance(reply),
            Event::Quote(reply) => self.on_quote(reply),
            Event::Built(reply) => self.on_built(reply),
            Event::Blockhash(reply) => self.on_blockhash(reply),
            Event::Signed(reply) => self.on_signed(reply),
            Event::Simulated(reply) => self.on_simulated(reply),
            Event::Submitted(reply) => self.on_submitted(reply),
        };
        Orchestrator { params, state }
    }

    /// The outside work that is due now.
    pub fn action(&self) -> (r: Action)
        ensures
            r == self.pending(),
    {
        match &self.state {
            State::ResolvingIn => Action::FetchAccount(self.params.token_in),
            State::ResolvingOut { .. } => Action::FetchAccount(self.params.token_out),
            State::ReadingPreIn { query, .. } => Action::QueryBalance(*query),
            State::ReadingPreOut { queries, .. } => Action::QueryBalance(queries.token_out),
            State::Quoting(_) => Action::RequestQuote(
                QuoteRequest {
                    input_mint: self.params.token_in,
                    output_mint: self.params.token_out,
                    amount: self.params.amount_in,
                    config: QuoteConfig {
                        slippage_bps: Some(self.params.slippage_bps),
                        only_direct_routes: false,
                    },
                },
            ),
            State::Building(_) => Action::BuildTransaction { user: self.params.owner },
            State::FetchingBlockhash { .. } => Action::FetchBlockhash,
            State::Signing { blockhash, .. } => Action::Sign { recent_blockhash: *blockhash },
            State::Simulating(_) => Action::Simulate,
            State::Submitting(_) => Action::Submit,
            State::ReadingPostIn(settled) => Action::QueryBalance(
                settled.finalized.priced.prepared.queries.token_in,
            ),
            State::ReadingPostOut { settled, .. } => Action::QueryBalance(
                settled.finalized.priced.prepared.queries.token_out,
            ),
            State::Done { .. } => Action::Stop,
            State::Failed(_) => Action::Stop,
        }
    }

    fn settled(&self) -> (r: Option<&Settled>)
        ensures
            match r {
                Some(settled) => self.state.settled() == Some(*settled),
                None => self.state.settled() is None,
            },
    {
        match &self.state {
            State::Submitting(settled) => Some(settled),
            State::ReadingPostIn(settled) => Some(settled),
            State::ReadingPostOut { settled, .. } => Some(settled),
            State::Done { settled, .. } => Some(settled),
            _ => None,
        }
    }

    fn finalized(&self) -> (r: Option<&Finalized>)
        ensures
            match r {
                Some(finalized) => self.state.finalized() == Some(*finalized),
                None => self.state.finalized() is None,
            },
    {
        match &self.state {
            State::Simulating(finalized) => Some(finalized),
            _ => match self.settled() {
                Some(settled) => Some(&settled.finalized),
                None => None,
            },
        }
    }

    fn priced(&self) -> (r: Option<&Priced>)
        ensures
            match r {
                Some(priced) => self.state.priced() == Some(*priced),
                None => self.state.priced() is None,
            },
    {
        match &self.state {
            State::Building(priced) => Some(priced),
            State::FetchingBlockhash { priced, .. } => Some(priced),
            State::Signing { priced, .. } => Some(priced),
            _ => match self.finalized() {
                Some(finalized) => Some(&finalized.priced),
                None => None,
            },
        }
    }

    fn prepared(&self) -> (r: Option<Prepared>)
        ensures
            r == self.state.prepared(),
    {
        match &self.state {
            State::Quoting(prepared) => Some(*prepared),
            _ => match self.priced() {
                Some(priced) => Some(priced.prepared),
                None => None,
            },
        }
    }

    /// The precisions of the two tokens, once both are resolved.
    pub fn decimals(&self) -> (r: Option<Decimals>)
        ensures
            r == self.state.decimals(),
    {
        match &self.state {
            State::ReadingPreIn { decimals, .. } => Some(*decimals),
            State::ReadingPreOut { decimals, .. } => Some(*decimals),
            _ => match self.prepared() {
                Some(prepared) => Some(prepared.decimals),
                None => None,
            },
        }
    }

    /// The balances read before the swap, once both were read.
    pub fn pre_balances(&self) -> (r: Option<Balances>)
        ensures
            r == match self.state.prepared() {
                Some(prepared) => Some(prepared.pre),
                None => None,
            },
    {
        match self.prepared() {
            Some(prepared) => Some(prepared.pre),
            None => None,
        }
    }

    /// The quote, once one was obtained. It is what the building service is
    /// asked to build from.
    pub fn quote(&self) -> (r: Option<&Quote>)
        ensures
            match r {
                Some(quote) => self.state.priced() matches Some(priced) && priced.quote == *quote,
                None => self.state.priced() is None,
            },
    {
        match self.priced() {
            Some(priced) => Some(&priced.quote),
            None => None,
        }
    }

    /// The transaction as built, while it waits to be finalized.
    pub fn unsigned_transaction(&self) -> (r: Option<&UnsignedSwapTransaction>)
        ensures
            match r {
                Some(unsigned) => self.state.unsigned() == Some(*unsigned),
                None => self.state.unsigned() is None,
            },
    {
        match &self.state {
            State::FetchingBlockhash { unsigned, .. } => Some(unsigned),
            State::Signing { unsigned, .. } => Some(unsigned),
            _ => None,
        }
    }

    /// The signed transaction, once the swap holds one. It is what is
    /// simulated and submitted.
    pub fn signed_transaction(&self) -> (r: Option<&SignedTransaction>)
        ensures
            match r {
                Some(signed) => self.state.finalized() matches Some(finalized) && finalized.signed
                    == *signed,
                None => self.state.finalized() is None,
            },
    {
        match self.finalized() {
            Some(finalized) => Some(&finalized.signed),
            None => None,
        }
    }

    /// What the dry run reported, once it was made. The report is advisory.
    pub fn simulation(&self) -> (r: Option<SimulationOutcome>)
        ensures
            r == match self.state.settled() {
                Some(settled) => Some(settled.simulation),
                None => None,
            },
    {
        match self.settled() {
            Some(settled) => Some(settled.simulation),
            None => None,
        }
    }

    /// The balances read after the swap, or the gap in them, once the swap
    /// is done.
    pub fn post_check(&self) -> (r: Option<PostCheck>)
        ensures
            r == match self.state {
                State::Done { post, .. } => Some(post),
                _ => None,
            },
    {
        match &self.state {
            State::Done { post, .. } => Some(*post),
            _ => None,
        }
    }

    /// Why the swap was abandoned, if it was.
    pub fn error(&self) -> (r: Option<SwapError>)
        ensures
            r == match self.state {
                State::Failed(e) => Some(e),
                _ => None,
            },
    {
        match &self.state {
            State::Failed(e) => Some(*e),
            _ => None,
        }
    }

    /// The last milestone that the swap reached.
    pub fn milestone(&self) -> (r: Milestone)
        ensures
            r == self.reached(),
    {
        match &self.state {
            State::ResolvingIn => Milestone::Init,
            State::ResolvingOut { .. } => Milestone::Init,
            State::ReadingPreIn { .. } => Milestone::DecimalsResolved,
            State::ReadingPreOut { .. } => Milestone::DecimalsResolved,
            State::Quoting(_) => Milestone::BalancesReadPre,
            State::Building(_) => Milestone::Quoted,
            State::FetchingBlockhash { .. } => Milestone::TxBuilt,
            State::Signing { .. } => Milestone::TxBuilt,
            State::Simulating(_) => Milestone::TxFinalized,
            State::Submitting(_) => Milestone::Simulated,
            State::ReadingPostIn(_) => Milestone::Submitted,
            State::ReadingPostOut { .. } => Milestone::Submitted,
            State::Done { .. } => Milestone::Done,
            State::Failed(_) => Milestone::Failed,
        }
    }
}

} // verus!
