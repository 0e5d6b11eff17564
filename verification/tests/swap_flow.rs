use solana_swap::address::{native_mint, token_program, Address};
use solana_swap::amount::UiAmount;
use solana_swap::balance::{balance_query, BalanceError, BalanceQuery, BalanceReply};
use solana_swap::mint::{AccountData, AccountLookup, MintError, UnpackError};
use solana_swap::quote::{Quote, QuoteConfig, QuoteError, QuoteReply, QuoteRequest, RouteHop};
use solana_swap::swap::{
    swap, Action, Balances, Decimals, Event, FinalizationError, Milestone, Orchestrator, PostCheck,
    State, Submission, SwapError,
};
use solana_swap::transaction::{
    Blockhash, BuiltSwap, SignedTransaction, SimulationOutcome, UnsignedSwapTransaction,
};
use spl_token::solana_program::program_option::COption;
use spl_token::solana_program::program_pack::Pack;

const TOKEN_X: &str = "6p6xgHyF7AeE6TZkSmFsko444wqoP15icUSqi2jfGiPN";
const NATIVE: &str = "So11111111111111111111111111111111111111112";

fn address(text: &str) -> Address {
    let bytes = bs58::decode(text).into_vec().unwrap();
    let mut out = [0u8; 32];
    out.copy_from_slice(&bytes);
    Address { bytes: out }
}

fn owner() -> Address {
    Address { bytes: [11u8; 32] }
}

fn mint_account(decimals: u8) -> AccountLookup {
    let mint = spl_token::state::Mint {
        mint_authority: COption::None,
        supply: 1_000_000_000,
        decimals,
        is_initialized: true,
        freeze_authority: COption::None,
    };
    let mut data = vec![0u8; 82];
    spl_token::state::Mint::pack(mint, &mut data).unwrap();
    AccountLookup::Found(AccountData { owner: token_program(), data })
}

fn quote(input: Address, output: Address) -> Quote {
    Quote {
        input_mint: input,
        in_amount: 60_000,
        output_mint: output,
        out_amount: 1_000_000,
        other_amount_threshold: 950_000,
        price_impact_pct: "0.0012".to_string(),
        route_plan: vec![RouteHop { label: Some("Orca".to_string()) }],
    }
}

fn built() -> BuiltSwap {
    BuiltSwap {
        transaction: UnsignedSwapTransaction { bytes: vec![1, 2, 3] },
        last_valid_block_height: 777,
    }
}

fn fresh() -> Blockhash {
    Blockhash { bytes: [42u8; 32] }
}

fn signed_over(recent_blockhash: Blockhash) -> SignedTransaction {
    SignedTransaction { recent_blockhash, signature: [9u8; 64], bytes: vec![4, 5, 6] }
}

fn run(mut o: Orchestrator, events: Vec<Event>) -> (Orchestrator, Vec<Action>) {
    let mut actions = Vec::new();
    for event in events {
        actions.push(o.action());
        o = o.step(event);
    }
    (o, actions)
}

fn token_reply(raw: &str) -> Event {
    Event::Balance(BalanceReply::Token(raw.to_string()))
}

/// The events of a swap of token X for the native asset that meets no failure.
fn sell_events() -> Vec<Event> {
    vec![
        Event::Account(mint_account(6)),
        token_reply("5000000"),
        Event::Balance(BalanceReply::Native(2_000_000_000)),
        Event::Quote(QuoteReply::Quoted(quote(address(TOKEN_X), address(NATIVE)))),
        Event::Built(Some(built())),
        Event::Blockhash(Some(fresh())),
        Event::Signed(Some(signed_over(fresh()))),
        Event::Simulated(Some(SimulationOutcome::Passed)),
        Event::Submitted(Submission::Confirmed),
        token_reply("4940000"),
        Event::Balance(BalanceReply::Native(2_001_000_000)),
    ]
}

#[test]
fn test_swap() {
    let token_in = address("6p6xgHyF7AeE6TZkSmFsko444wqoP15icUSqi2jfGiPN");
    let token_out = address("So11111111111111111111111111111111111111112");
    let amount_in: u64 = 60_000;
    let slippage_bps: u64 = 500;

    let o = swap(owner(), token_in, token_out, amount_in, slippage_bps);
    assert_eq!(o.milestone(), Milestone::Init);
    let (done, actions) = run(o, sell_events());

    let account = match balance_query(&owner(), &token_in).unwrap() {
        BalanceQuery::Token { account } => account,
        BalanceQuery::Native { .. } => panic!("token X is not native"),
    };
    assert_eq!(
        actions,
        vec![
            Action::FetchAccount(token_in),
            Action::QueryBalance(BalanceQuery::Token { account }),
            Action::QueryBalance(BalanceQuery::Native { owner: owner() }),
            Action::RequestQuote(QuoteRequest {
                input_mint: token_in,
                output_mint: token_out,
                amount: 60_000,
                config: QuoteConfig { slippage_bps: Some(500), only_direct_routes: false },
            }),
            Action::BuildTransaction { user: owner() },
            Action::FetchBlockhash,
            Action::Sign { recent_blockhash: fresh() },
            Action::Simulate,
            Action::Submit,
            Action::QueryBalance(BalanceQuery::Token { account }),
            Action::QueryBalance(BalanceQuery::Native { owner: owner() }),
        ]
    );
    assert_eq!(done.milestone(), Milestone::Done);
    assert_eq!(done.action(), Action::Stop);
    assert_eq!(done.error(), None);
    assert_eq!(done.decimals(), Some(Decimals { token_in: 6, token_out: 9 }));
    assert_eq!(
        done.pre_balances(),
        Some(Balances {
            token_in: UiAmount { raw: 5_000_000, decimals: 6 },
            token_out: UiAmount { raw: 2_000_000_000, decimals: 9 },
        })
    );
    assert_eq!(
        done.post_check(),
        Some(PostCheck::Read(Balances {
            token_in: UiAmount { raw: 4_940_000, decimals: 6 },
            token_out: UiAmount { raw: 2_001_000_000, decimals: 9 },
        }))
    );
    assert_eq!(done.simulation(), Some(SimulationOutcome::Passed));
    assert_eq!(done.signed_transaction(), Some(&signed_over(fresh())));
    assert_eq!(done.quote(), Some(&quote(token_in, token_out)));
}

#[test]
fn native_for_token_resolves_only_the_token() {
    let x = address(TOKEN_X);
    let o = swap(owner(), native_mint(), x, 60_000, 500);
    assert_eq!(o.state, State::ResolvingOut { decimals_in: 9 });
    assert_eq!(o.action(), Action::FetchAccount(x));
    let events = vec![
        Event::Account(mint_account(6)),
        Event::Balance(BalanceReply::Native(2_000_000_000)),
        token_reply("0"),
        Event::Quote(QuoteReply::Quoted(quote(native_mint(), x))),
        Event::Built(Some(built())),
        Event::Blockhash(Some(fresh())),
        Event::Signed(Some(signed_over(fresh()))),
    ];
    let (o, actions) = run(o, events);
    assert_eq!(o.decimals(), Some(Decimals { token_in: 9, token_out: 6 }));
    let lookups: Vec<&Action> =
        actions.iter().filter(|a| matches!(a, Action::FetchAccount(_))).collect();
    assert_eq!(lookups, vec![&Action::FetchAccount(x)]);
    assert_eq!(
        actions[3],
        Action::RequestQuote(QuoteRequest {
            input_mint: native_mint(),
            output_mint: x,
            amount: 60_000,
            config: QuoteConfig { slippage_bps: Some(500), only_direct_routes: false },
        })
    );
    assert_eq!(o.milestone(), Milestone::TxFinalized);
    assert_eq!(o.action(), Action::Simulate);
    let signed = o.signed_transaction().unwrap();
    assert_eq!(signed.recent_blockhash, fresh());
    assert_eq!(o.quote().unwrap().in_amount, 60_000);
    assert_eq!(o.quote().unwrap().in_amount, quote(native_mint(), x).in_amount);
}

#[test]
fn two_tokens_are_resolved_by_two_lookups() {
    let a = Address { bytes: [1u8; 32] };
    let b = Address { bytes: [2u8; 32] };
    let o = swap(owner(), a, b, 10, 50);
    assert_eq!(o.state, State::ResolvingIn);
    let (o, actions) = run(o, vec![Event::Account(mint_account(4)), Event::Account(mint_account(7))]);
    assert_eq!(actions, vec![Action::FetchAccount(a), Action::FetchAccount(b)]);
    assert_eq!(o.decimals(), Some(Decimals { token_in: 4, token_out: 7 }));
    assert_eq!(o.milestone(), Milestone::DecimalsResolved);
    assert!(matches!(o.action(), Action::QueryBalance(BalanceQuery::Token { .. })));
}

#[test]
fn native_for_native_is_refused() {
    let o = swap(owner(), native_mint(), native_mint(), 1, 1);
    assert_eq!(o.state, State::Failed(SwapError::InvalidPair));
    assert_eq!(o.action(), Action::Stop);
    assert_eq!(o.milestone(), Milestone::Failed);
}

#[test]
fn foreign_owner_aborts_before_any_quote() {
    let x = address(TOKEN_X);
    let foreign = AccountLookup::Found(AccountData {
        owner: Address { bytes: [3u8; 32] },
        data: vec![0u8; 82],
    });
    let o = swap(owner(), native_mint(), x, 60_000, 500);
    let mut events = vec![Event::Account(foreign)];
    events.extend(sell_events());
    let (o, actions) = run(o, events);
    assert_eq!(o.state, State::Failed(SwapError::Metadata(MintError::InvalidOwner)));
    assert_eq!(o.error(), Some(SwapError::Metadata(MintError::InvalidOwner)));
    assert_eq!(actions[0], Action::FetchAccount(x));
    assert!(actions[1..].iter().all(|a| *a == Action::Stop));
    assert!(!actions.iter().any(|a| matches!(a, Action::RequestQuote(_))));
}

#[test]
fn unresolved_second_mint_aborts() {
    let a = Address { bytes: [1u8; 32] };
    let b = Address { bytes: [2u8; 32] };
    let o = swap(owner(), a, b, 10, 50);
    let (o, _) = run(o, vec![Event::Account(mint_account(4)), Event::Account(AccountLookup::Missing)]);
    assert_eq!(o.error(), Some(SwapError::Metadata(MintError::AccountNotFound)));
    let o = swap(owner(), a, b, 10, 50);
    let (o, _) = run(o, vec![Event::Account(AccountLookup::Failed)]);
    assert_eq!(o.error(), Some(SwapError::Metadata(MintError::LookupFailed)));
    let o = swap(owner(), a, b, 10, 50);
    let garbage = AccountLookup::Found(AccountData { owner: token_program(), data: vec![1, 2] });
    let (o, _) = run(o, vec![Event::Account(garbage)]);
    assert_eq!(
        o.error(),
        Some(SwapError::Metadata(MintError::MalformedMintData(UnpackError::InvalidAccountData)))
    );
}

#[test]
fn failing_pre_balance_is_fatal() {
    let o = swap(owner(), address(TOKEN_X), native_mint(), 60_000, 500);
    let (o, actions) =
        run(o, vec![Event::Account(mint_account(6)), Event::Balance(BalanceReply::Failed)]);
    assert_eq!(o.error(), Some(SwapError::Balance(BalanceError::QueryFailed)));
    assert_eq!(actions.len(), 2);
    let o = swap(owner(), address(TOKEN_X), native_mint(), 60_000, 500);
    let (o, _) = run(
        o,
        vec![Event::Account(mint_account(6)), token_reply("1"), Event::Balance(BalanceReply::Failed)],
    );
    assert_eq!(o.error(), Some(SwapError::Balance(BalanceError::QueryFailed)));
}

fn up_to(n: usize) -> Orchestrator {
    let o = swap(owner(), address(TOKEN_X), native_mint(), 60_000, 500);
    let events: Vec<Event> = sell_events().into_iter().take(n).collect();
    run(o, events).0
}

#[test]
fn milestones_follow_the_events() {
    let expected = [
        Milestone::Init,
        Milestone::DecimalsResolved,
        Milestone::DecimalsResolved,
        Milestone::BalancesReadPre,
        Milestone::Quoted,
        Milestone::TxBuilt,
        Milestone::TxBuilt,
        Milestone::TxFinalized,
        Milestone::Simulated,
        Milestone::Submitted,
        Milestone::Submitted,
        Milestone::Done,
    ];
    for (n, milestone) in expected.iter().enumerate() {
        assert_eq!(up_to(n).milestone(), *milestone, "after {} events", n);
    }
}

#[test]
fn quote_failures_abort() {
    let o = up_to(3).step(Event::Quote(QuoteReply::Failed(QuoteError::NoRouteFound)));
    assert_eq!(o.error(), Some(SwapError::QuoteUnavailable(QuoteError::NoRouteFound)));
    let o = up_to(3).step(Event::Quote(QuoteReply::Failed(QuoteError::NetworkError)));
    assert_eq!(o.error(), Some(SwapError::QuoteUnavailable(QuoteError::NetworkError)));
}

#[test]
fn build_failure_aborts() {
    assert_eq!(up_to(4).step(Event::Built(None)).error(), Some(SwapError::Build));
}

#[test]
fn builder_marker_is_dropped() {
    let mut other = built();
    other.last_valid_block_height = 1;
    let a = up_to(4).step(Event::Built(Some(built())));
    let b = up_to(4).step(Event::Built(Some(other)));
    assert_eq!(a, b);
    assert_eq!(a.unsigned_transaction(), Some(&UnsignedSwapTransaction { bytes: vec![1, 2, 3] }));
    assert_eq!(a.action(), Action::FetchBlockhash);
}

#[test]
fn finalization_failures_abort() {
    assert_eq!(
        up_to(5).step(Event::Blockhash(None)).error(),
        Some(SwapError::Finalization(FinalizationError::BlockhashUnavailable))
    );
    assert_eq!(
        up_to(6).step(Event::Signed(None)).error(),
        Some(SwapError::Finalization(FinalizationError::SigningFailed))
    );
}

#[test]
fn transaction_signed_over_another_token_is_refused() {
    let stale = Blockhash { bytes: [41u8; 32] };
    let o = up_to(6);
    assert_eq!(o.action(), Action::Sign { recent_blockhash: fresh() });
    let o = o.step(Event::Signed(Some(signed_over(stale))));
    assert_eq!(o.error(), Some(SwapError::Finalization(FinalizationError::StaleBlockhash)));
    assert_eq!(o.signed_transaction(), None);
    let mut nearly = fresh();
    nearly.bytes[31] = 0;
    let o = up_to(6).step(Event::Signed(Some(signed_over(nearly))));
    assert_eq!(o.error(), Some(SwapError::Finalization(FinalizationError::StaleBlockhash)));
}

#[test]
fn rejected_simulation_does_not_gate_submission() {
    let o = up_to(7).step(Event::Simulated(Some(SimulationOutcome::Rejected)));
    assert_eq!(o.action(), Action::Submit);
    assert_eq!(o.simulation(), Some(SimulationOutcome::Rejected));
    assert_eq!(o.error(), None);
    let o = o.step(Event::Submitted(Submission::Confirmed));
    assert_eq!(o.milestone(), Milestone::Submitted);
}

#[test]
fn missing_simulation_aborts() {
    assert_eq!(up_to(7).step(Event::Simulated(None)).error(), Some(SwapError::Simulation));
}

#[test]
fn submission_failure_is_its_own_error() {
    assert_eq!(
        up_to(8).step(Event::Submitted(Submission::Failed)).error(),
        Some(SwapError::Submission)
    );
}

#[test]
fn unreadable_post_balance_is_a_gap_not_a_failure() {
    let o = up_to(9).step(Event::Balance(BalanceReply::Failed));
    assert_eq!(o.milestone(), Milestone::Done);
    assert_eq!(o.error(), None);
    assert_eq!(o.post_check(), Some(PostCheck::Gap(BalanceError::QueryFailed)));
    let o = up_to(10).step(token_reply("12"));
    assert_eq!(o.milestone(), Milestone::Done);
    assert_eq!(o.post_check(), Some(PostCheck::Gap(BalanceError::UnexpectedReply)));
}

#[test]
fn unexpected_event_abandons_a_swap_in_progress() {
    for n in 0..11 {
        let o = up_to(n);
        let wrong = if n == 4 { Event::Blockhash(Some(fresh())) } else { Event::Built(Some(built())) };
        assert_eq!(o.step(wrong).error(), Some(SwapError::UnexpectedEvent), "after {} events", n);
    }
}

#[test]
fn finished_swap_stays_as_it_is() {
    let done = up_to(11);
    for event in sell_events() {
        let after = done.clone().step(event);
        assert_eq!(after, done);
        assert_eq!(after.action(), Action::Stop);
    }
    let failed = up_to(4).step(Event::Built(None));
    for event in sell_events() {
        assert_eq!(failed.clone().step(event), failed);
    }
}
