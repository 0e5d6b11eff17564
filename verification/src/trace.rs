//! Runs of the orchestrator: what holds of every sequence of events that a
//! swap may meet.

use vstd::prelude::*;
use crate::address::{Address, NATIVE_DECIMALS};
use crate::mint::{resolved_mint, AccountLookup};
use crate::swap::{
    start, Action, Event, Milestone, Orchestrator, State, SwapError, SwapParams,
};
use crate::transaction::Blockhash;

verus! {

/// The orchestrator after a sequence of events.
pub open spec fn run(o: Orchestrator, events: Seq<Event>) -> Orchestrator
    decreases events.len(),
{
    if events.len() == 0 {
        o
    } else {
        run(o, events.drop_last()).next(events.last())
    }
}

/// The actions performed along a run: for each event, the action that was
/// due when it arrived.
pub open spec fn performed(o: Orchestrator, events: Seq<Event>) -> Seq<Action>
    decreases events.len(),
{
    if events.len() == 0 {
        Seq::empty()
    } else {
        performed(o, events.drop_last()).push(run(o, events.drop_last()).pending())
    }
}

/// The mints that were looked up by a sequence of actions, in order.
pub open spec fn lookups(actions: Seq<Action>) -> Seq<Address>
    decreases actions.len(),
{
    if actions.len() == 0 {
        Seq::empty()
    } else {
        match actions.last() {
            Action::FetchAccount(mint) => lookups(actions.drop_last()).push(mint),
            _ => lookups(actions.drop_last()),
        }
    }
}

/// The freshness token that was fetched last along a run: the one in the
/// latest answer to a fetch that was due.
pub open spec fn last_fetched(o: Orchestrator, events: Seq<Event>) -> Option<Blockhash>
    decreases events.len(),
{
    if events.len() == 0 {
        None
    } else {
        let earlier = events.drop_last();
        match events.last() {
            Event::Blockhash(Some(blockhash)) => if run(o, earlier).pending()
                is FetchBlockhash {
                Some(blockhash)
            } else {
                last_fetched(o, earlier)
            },
            _ => last_fetched(o, earlier),
        }
    }
}

/// The mints that a swap has to look up: each side that is not the native
/// asset, the input side first.
pub open spec fn due_lookups(params: SwapParams) -> Seq<Address> {
    if params.token_in.is_native() {
        seq![params.token_out]
    } else if params.token_out.is_native() {
        seq![params.token_in]
    } else {
        seq![params.token_in, params.token_out]
    }
}

/// Whether `a` is a front part of `b`.
pub open spec fn is_prefix(a: Seq<Address>, b: Seq<Address>) -> bool {
    a.len() <= b.len() && a == b.subrange(0, a.len() as int)
}

/// What holds of the lookups made so far, in each state.
spec fn lookups_hold(o: Orchestrator, made: Seq<Address>) -> bool {
    let p = o.params;
    &&& is_prefix(made, due_lookups(p))
    &&& match o.state {
        State::ResolvingIn => !p.token_in.is_native() && made.len() == 0,
        State::ResolvingOut { decimals_in } => {
            &&& !p.token_out.is_native()
            &&& if p.token_in.is_native() {
                made.len() == 0 && decimals_in == NATIVE_DECIMALS
            } else {
                made.len() == 1
            }
        },
        State::Failed(_) => true,
        _ => {
            &&& made.len() == due_lookups(p).len()
            &&& o.state.decimals() matches Some(d)
            &&& p.token_in.is_native() ==> d.token_in == NATIVE_DECIMALS
            &&& p.token_out.is_native() ==> d.token_out == NATIVE_DECIMALS
        },
    }
}

/// The lookups made once the action that is due in `o` is performed.
spec fn lookups_after(o: Orchestrator, made: Seq<Address>) -> Seq<Address> {
    match o.pending() {
        Action::FetchAccount(mint) => made.push(mint),
        _ => made,
    }
}

/// Outside the resolving states, what holds of the lookups carries over to
/// any state that holds the same precisions, and to any failure.
proof fn lemma_lookups_carry(o: Orchestrator, state: State, made: Seq<Address>)
    requires
        lookups_hold(o, made),
        !(o.state is ResolvingIn),
        !(o.state is ResolvingOut),
        state is Failed || (o.state == state) || (!(state is ResolvingIn) && !(state
            is ResolvingOut) && !(o.state is Failed) && state.decimals() == o.state.decimals()),
    ensures
        lookups_hold(Orchestrator { params: o.params, state }, made),
{
}

proof fn lemma_lookups_account(o: Orchestrator, made: Seq<Address>, lookup: AccountLookup)
    requires
        lookups_hold(o, made),
    ensures
        lookups_hold(o.next(Event::Account(lookup)), lookups_after(o, made)),
{
    let p = o.params;
    let due = due_lookups(p);
    let now = lookups_after(o, made);
    match o.state {
        State::ResolvingIn => {
            assert(now =~= due.subrange(0, 1));
        },
        State::ResolvingOut { .. } => {
            assert(made =~= due.subrange(0, made.len() as int));
            assert(now =~= due);
            assert(due =~= due.subrange(0, due.len() as int));
        },
        _ => {
            lemma_lookups_carry(o, o.next(Event::Account(lookup)).state, made);
        },
    }
}

proof fn lemma_lookups_other(o: Orchestrator, made: Seq<Address>, event: Event)
    requires
        lookups_hold(o, made),
        !(event is Account),
    ensures
        lookups_hold(o.next(event), lookups_after(o, made)),
{
    let after = o.next(event);
    match o.state {
        State::ResolvingIn => {
            assert(after.state is Failed);
            let now = lookups_after(o, made);
            assert(now =~= due_lookups(o.params).subrange(0, 1));
        },
        State::ResolvingOut { .. } => {
            assert(after.state is Failed);
            let due = due_lookups(o.params);
            assert(made =~= due.subrange(0, made.len() as int));
            assert(lookups_after(o, made) =~= due);
            assert(due =~= due.subrange(0, due.len() as int));
        },
        _ => {
            assert(lookups_after(o, made) == made);
            match event {
                Event::Account(_) => {},
                Event::Balance(reply) => {
                    lemma_lookups_carry(o, o.after_balance(reply), made);
                },
                Event::Quote(reply) => {
                    lemma_lookups_carry(o, o.after_quote(reply), made);
                },
                Event::Built(reply) => {
                    lemma_lookups_carry(o, o.after_built(reply), made);
                },
                Event::Blockhash(reply) => {
                    lemma_lookups_carry(o, o.after_blockhash(reply), made);
                },
                Event::Signed(reply) => {
                    lemma_lookups_carry(o, o.after_signed(reply), made);
                },
                Event::Simulated(reply) => {
                    lemma_lookups_carry(o, o.after_simulated(reply), made);
                },
                Event::Submitted(reply) => {
                    lemma_lookups_carry(o, o.after_submitted(reply), made);
                },
            }
        },
    }
}

proof fn lemma_lookups_hold(params: SwapParams, events: Seq<Event>)
    ensures
        lookups_hold(run(start(params), events), lookups(performed(start(params), events))),
        run(start(params), events).params == params,
    decreases events.len(),
{
    let o = start(params);
    if events.len() == 0 {
        assert(lookups(performed(o, events)) =~= Seq::<Address>::empty());
        assert(Seq::<Address>::empty() =~= due_lookups(params).subrange(0, 0));
    } else {
        let earlier = events.drop_last();
        lemma_lookups_hold(params, earlier);
        let before = run(o, earlier);
        let made = lookups(performed(o, earlier));
        let actions = performed(o, events);
        assert(actions.drop_last() =~= performed(o, earlier));
        assert(actions.last() == before.pending());
        assert(lookups(actions) == lookups_after(before, made));
        match events.last() {
            Event::Account(lookup) => lemma_lookups_account(before, made, lookup),
            _ => lemma_lookups_other(before, made, events.last()),
        }
    }
}

/// No run of a swap looks up a mint that is not due, nor one twice, nor in
/// another order: the mints looked up so far are a front part of those due.
pub proof fn law_lookups_are_due(params: SwapParams, events: Seq<Event>)
    ensures
        is_prefix(lookups(performed(start(params), events)), due_lookups(params)),
{
    lemma_lookups_hold(params, events);
}

/// Where neither token is the native asset, a swap whose decimals are
/// resolved has looked up exactly two mints, the input token's and then the
/// output token's, and holds the precisions that those two lookups gave.
pub proof fn law_two_lookups_without_native(params: SwapParams, events: Seq<Event>)
    requires
        !params.token_in.is_native(),
        !params.token_out.is_native(),
        run(start(params), events).state.decimals() is Some,
    ensures
        lookups(performed(start(params), events)) == seq![params.token_in, params.token_out],
        events.len() >= 2,
        events[0] matches Event::Account(first) && resolved_mint(first, None) matches Ok(mint)
            && mint.decimals == run(start(params), events).state.decimals()->0.token_in,
        events[1] matches Event::Account(second) && resolved_mint(second, None) matches Ok(mint)
            && mint.decimals == run(start(params), events).state.decimals()->0.token_out,
{
    lemma_lookups_hold(params, events);
    lemma_resolved_from_lookups(params, events);
    let made = lookups(performed(start(params), events));
    let due = due_lookups(params);
    assert(due.subrange(0, due.len() as int) =~= due);
}

/// What holds of the events so far where neither token is native.
spec fn answers_hold(o: Orchestrator, events: Seq<Event>) -> bool {
    match o.state {
        State::ResolvingIn => events.len() == 0,
        State::ResolvingOut { decimals_in } => {
            &&& events.len() == 1
            &&& events[0] matches Event::Account(first)
            &&& resolved_mint(first, None) matches Ok(mint)
            &&& mint.decimals == decimals_in
        },
        State::Failed(_) => true,
        _ => {
            &&& events.len() >= 2
            &&& o.state.decimals() matches Some(d)
            &&& events[0] matches Event::Account(first)
            &&& resolved_mint(first, None) matches Ok(mint_in)
            &&& mint_in.decimals == d.token_in
            &&& events[1] matches Event::Account(second)
            &&& resolved_mint(second, None) matches Ok(mint_out)
            &&& mint_out.decimals == d.token_out
        },
    }
}

proof fn lemma_resolved_from_lookups(params: SwapParams, events: Seq<Event>)
    requires
        !params.token_in.is_native(),
        !params.token_out.is_native(),
    ensures
        answers_hold(run(start(params), events), events),
        run(start(params), events).params == params,
    decreases events.len(),
{
    if events.len() > 0 {
        let earlier = events.drop_last();
        lemma_resolved_from_lookups(params, earlier);
        if earlier.len() > 0 {
            assert(events[0] == earlier[0]);
        }
        if earlier.len() > 1 {
            assert(events[1] == earlier[1]);
        }
    }
}

/// The native asset is never looked up: no run of a swap asks for the mint
/// account of the native asset, and where a side is the native asset, the
/// precision held for it is the fixed one.
pub proof fn law_native_side_is_fixed(params: SwapParams, events: Seq<Event>)
    ensures
        forall|i: int|
            0 <= i < lookups(performed(start(params), events)).len() ==> !(
            #[trigger] lookups(performed(start(params), events))[i]).is_native(),
        run(start(params), events).state.decimals() matches Some(d) ==> {
            &&& params.token_in.is_native() ==> d.token_in == NATIVE_DECIMALS
            &&& params.token_out.is_native() ==> d.token_out == NATIVE_DECIMALS
        },
{
    lemma_lookups_hold(params, events);
    let made = lookups(performed(start(params), events));
    let due = due_lookups(params);
    assert forall|i: int| 0 <= i < made.len() implies !(#[trigger] made[i]).is_native() by {
        assert(made[i] == due.subrange(0, made.len() as int)[i]);
        assert(made[i] == due[i]);
        let o = run(start(params), events);
        if params.token_in.is_native() && params.token_out.is_native() {
            lemma_both_native_fails(params, events);
        }
    }
}

/// A swap of the native asset for itself is refused before any action.
pub proof fn lemma_both_native_fails(params: SwapParams, events: Seq<Event>)
    requires
        params.token_in.is_native(),
        params.token_out.is_native(),
    ensures
        run(start(params), events).state == State::Failed(SwapError::InvalidPair),
        run(start(params), events).params == params,
        lookups(performed(start(params), events)).len() == 0,
    decreases events.len(),
{
    if events.len() > 0 {
        let o = start(params);
        let earlier = events.drop_last();
        lemma_both_native_fails(params, earlier);
        let actions = performed(o, events);
        assert(actions.drop_last() =~= performed(o, earlier));
    }
}

/// What holds of the freshness token fetched so far, in each state.
spec fn freshness_holds(o: Orchestrator, fetched: Option<Blockhash>) -> bool {
    match o.state {
        State::Signing { blockhash, .. } => fetched == Some(blockhash),
        State::Failed(_) => true,
        _ => match o.state.finalized() {
            Some(finalized) => fetched == Some(finalized.blockhash)
                && finalized.signed.recent_blockhash == finalized.blockhash,
            None => fetched is None,
        },
    }
}

/// The freshness token fetched last once `event` has arrived in `o`.
spec fn fetched_after(o: Orchestrator, fetched: Option<Blockhash>, event: Event) -> Option<
    Blockhash,
> {
    match event {
        Event::Blockhash(Some(blockhash)) => if o.pending() is FetchBlockhash {
            Some(blockhash)
        } else {
            fetched
        },
        _ => fetched,
    }
}

proof fn lemma_freshness_step(o: Orchestrator, fetched: Option<Blockhash>, event: Event)
    requires
        freshness_holds(o, fetched),
    ensures
        freshness_holds(o.next(event), fetched_after(o, fetched, event)),
{
    match event {
        Event::Account(reply) => {
            assert(o.next(event).state == o.after_account(reply));
        },
        Event::Balance(reply) => {
            assert(o.next(event).state == o.after_balance(reply));
        },
        Event::Quote(reply) => {
            assert(o.next(event).state == o.after_quote(reply));
        },
        Event::Built(reply) => {
            assert(o.next(event).state == o.after_built(reply));
        },
        Event::Blockhash(reply) => {
            assert(o.next(event).state == o.after_blockhash(reply));
        },
        Event::Signed(reply) => {
            assert(o.next(event).state == o.after_signed(reply));
        },
        Event::Simulated(reply) => {
            assert(o.next(event).state == o.after_simulated(reply));
        },
        Event::Submitted(reply) => {
            assert(o.next(event).state == o.after_submitted(reply));
        },
    }
}

proof fn lemma_freshness_holds(params: SwapParams, events: Seq<Event>)
    ensures
        freshness_holds(run(start(params), events), last_fetched(start(params), events)),
    decreases events.len(),
{
    if events.len() > 0 {
        let o = start(params);
        let earlier = events.drop_last();
        lemma_freshness_holds(params, earlier);
        lemma_freshness_step(run(o, earlier), last_fetched(o, earlier), events.last());
    }
}

/// The freshness token of a signed transaction is the one fetched last:
/// whenever a swap holds a signed transaction, that transaction carries the
/// token of the latest answer to a fetch, and whenever signing is due, it is
/// asked for over that token.
pub proof fn law_signed_over_last_fetched(params: SwapParams, events: Seq<Event>)
    ensures
        run(start(params), events).state.finalized() matches Some(finalized) ==> last_fetched(
            start(params),
            events,
        ) == Some(finalized.signed.recent_blockhash),
        run(start(params), events).pending() matches Action::Sign { recent_blockhash }
            ==> last_fetched(start(params), events) == Some(recent_blockhash),
{
    lemma_freshness_holds(params, events);
}

/// A finished swap stays as it is: no event changes a swap that is done or
/// was abandoned, and no action is due in it any more.
pub proof fn law_finished_is_final(o: Orchestrator, events: Seq<Event>)
    requires
        o.state.is_terminal(),
    ensures
        run(o, events) == o,
        forall|i: int|
            0 <= i < performed(o, events).len() ==> #[trigger] performed(o, events)[i]
                == Action::Stop,
    decreases events.len(),
{
    if events.len() > 0 {
        let earlier = events.drop_last();
        law_finished_is_final(o, earlier);
        let actions = performed(o, events);
        assert forall|i: int| 0 <= i < actions.len() implies #[trigger] actions[i]
            == Action::Stop by {
            if i < actions.len() - 1 {
                assert(actions[i] == performed(o, earlier)[i]);
            }
        }
    }
}

/// A mint that cannot be resolved abandons the swap at once, with the
/// resolver's error.
pub proof fn law_unresolved_mint_aborts(o: Orchestrator, lookup: AccountLookup)
    requires
        o.state is ResolvingIn || o.state is ResolvingOut,
        resolved_mint(lookup, None) is Err,
    ensures
        o.next(Event::Account(lookup)).state == State::Failed(
            SwapError::Metadata(resolved_mint(lookup, None)->Err_0),
        ),
{
}

/// Whether an action is a lookup of a mint account, or none at all.
pub open spec fn is_lookup_or_stop(action: Action) -> bool {
    action is FetchAccount || action is Stop
}

spec fn only_lookups(actions: Seq<Action>) -> bool {
    forall|i: int| 0 <= i < actions.len() ==> is_lookup_or_stop(#[trigger] actions[i])
}

spec fn resolving_holds(o: Orchestrator, actions: Seq<Action>) -> bool {
    (o.state is ResolvingIn || o.state is ResolvingOut || o.state matches State::Failed(
        SwapError::Metadata(_),
    )) ==> only_lookups(actions)
}

proof fn lemma_resolving_holds(params: SwapParams, events: Seq<Event>)
    ensures
        resolving_holds(run(start(params), events), performed(start(params), events)),
    decreases events.len(),
{
    if events.len() > 0 {
        let o = start(params);
        let earlier = events.drop_last();
        lemma_resolving_holds(params, earlier);
        let before = run(o, earlier);
        let after = run(o, events);
        let actions = performed(o, events);
        assert(after == before.next(events.last()));
        if after.state is ResolvingIn || after.state is ResolvingOut || after.state
            matches State::Failed(SwapError::Metadata(_)) {
            assert(before.state is ResolvingIn || before.state is ResolvingOut || before.state
                matches State::Failed(SwapError::Metadata(_))) by {
                match events.last() {
                    Event::Account(reply) => {
                        assert(after.state == before.after_account(reply));
                    },
                    Event::Balance(reply) => {
                        assert(after.state == before.after_balance(reply));
                    },
                    Event::Quote(reply) => {
                        assert(after.state == before.after_quote(reply));
                    },
                    Event::Built(reply) => {
                        assert(after.state == before.after_built(reply));
                    },
                    Event::Blockhash(reply) => {
                        assert(after.state == before.after_blockhash(reply));
                    },
                    Event::Signed(reply) => {
                        assert(after.state == before.after_signed(reply));
                    },
                    Event::Simulated(reply) => {
                        assert(after.state == before.after_simulated(reply));
                    },
                    Event::Submitted(reply) => {
                        assert(after.state == before.after_submitted(reply));
                    },
                }
            }
            assert forall|i: int| 0 <= i < actions.len() implies is_lookup_or_stop(
                #[trigger] actions[i],
            ) by {
                if i < actions.len() - 1 {
                    assert(actions[i] == performed(o, earlier)[i]);
                }
            }
        }
    }
}

/// A swap abandoned for a mint that could not be resolved has done nothing
/// but look up mint accounts: no balance was read, no quote requested, and
/// nothing was built, signed, simulated or submitted.
pub proof fn law_unresolved_mint_precedes_quote(params: SwapParams, events: Seq<Event>)
    requires
        run(start(params), events).state matches State::Failed(SwapError::Metadata(_)),
    ensures
        forall|i: int|
            0 <= i < performed(start(params), events).len() ==> is_lookup_or_stop(
                #[trigger] performed(start(params), events)[i],
            ),
{
    lemma_resolving_holds(params, events);
}

/// The place of a milestone in the order in which milestones are reached.
pub open spec fn rank(milestone: Milestone) -> nat {
    match milestone {
        Milestone::Init => 0,
        Milestone::DecimalsResolved => 1,
        Milestone::BalancesReadPre => 2,
        Milestone::Quoted => 3,
        Milestone::TxBuilt => 4,
        Milestone::TxFinalized => 5,
        Milestone::Simulated => 6,
        Milestone::Submitted => 7,
        Milestone::Done => 8,
        Milestone::Failed => 9,
    }
}

/// A swap moves forward one milestone at a time: an event leaves it where it
/// stands, takes it to the next milestone, or abandons it. No milestone is
/// skipped and none is left again; so nothing is submitted that was not
/// simulated, nothing simulated that was not signed, nothing signed before
/// the transaction was built, and nothing built without a quote.
pub proof fn law_milestones_in_order(o: Orchestrator, event: Event)
    ensures
        rank(o.reached()) <= rank(o.next(event).reached()),
        o.next(event).reached() == Milestone::Failed || rank(o.next(event).reached()) <= rank(
            o.reached(),
        ) + 1,
{
    match event {
        Event::Account(reply) => {
            assert(o.next(event).state == o.after_account(reply));
        },
        Event::Balance(reply) => {
            assert(o.next(event).state == o.after_balance(reply));
        },
        Event::Quote(reply) => {
            assert(o.next(event).state == o.after_quote(reply));
        },
        Event::Built(reply) => {
            assert(o.next(event).state == o.after_built(reply));
        },
        Event::Blockhash(reply) => {
            assert(o.next(event).state == o.after_blockhash(reply));
        },
        Event::Signed(reply) => {
            assert(o.next(event).state == o.after_signed(reply));
        },
        Event::Simulated(reply) => {
            assert(o.next(event).state == o.after_simulated(reply));
        },
        Event::Submitted(reply) => {
            assert(o.next(event).state == o.after_submitted(reply));
        },
    }
}

} // verus!
