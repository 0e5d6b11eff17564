//! Quotes of the aggregation service, the request that asks for one, and the
//! request that has a transaction built from one.

use vstd::prelude::*;
use vstd::string::StringExecFns;
use crate::address::Address;
use crate::amount::UiAmount;

verus! {

/// The routing options of a quote request.
#[derive(Clone, Copy, Debug, PartialEq, Eq, Structural)]
pub struct QuoteConfig {
    /// Largest tolerated price movement between quote and execution, in
    /// basis points.
    pub slippage_bps: Option<u64>,
    /// Restricts routing to single-hop paths.
    pub only_direct_routes: bool,
}

/// A request for the best route of a swap.
#[derive(Clone, Copy, Debug, PartialEq, Eq)]
pub struct QuoteRequest {
    pub input_mint: Address,
    pub output_mint: Address,
    /// Amount to swap, in base units of the input token.
    pub amount: u64,
    pub config: QuoteConfig,
}

/// One hop of a route.
#[derive(Clone, Debug, PartialEq, Eq)]
pub struct RouteHop {
    /// The name of the exchange that serves the hop, where the service gives
    /// one.
    pub label: Option<String>,
}

/// The best route that the aggregation service found, with its price.
#[derive(Clone, Debug, PartialEq, Eq)]
pub struct Quote {
    pub input_mint: Address,
    /// Input amount, in base units.
    pub in_amount: u64,
    pub output_mint: Address,
    /// Quoted output amount, in base units.
    pub out_amount: u64,
    /// Least output that the swap accepts, in base units.
    pub other_amount_threshold: u64,
    /// Price impact as a fraction, in the decimal text of the service.
    pub price_impact_pct: String,
    /// The hops of the route, in order.
    pub route_plan: Vec<RouteHop>,
}

/// Why no quote was obtained.
#[derive(Clone, Copy, Debug, PartialEq, Eq, Structural)]
pub enum QuoteError {
    /// The service cannot route the request.
    NoRouteFound,
    /// The request did not reach the service, or its answer did not arrive.
    NetworkError,
}

/// The answer of the aggregation service to a quote request.
#[derive(Clone, Debug, PartialEq, Eq)]
pub enum QuoteReply {
    Quoted(Quote),
    Failed(QuoteError),
}

/// The amounts of a quote at the precisions of its two tokens, and the label
/// of its first hop.
#[derive(Clone, Debug, PartialEq, Eq)]
pub struct QuoteSummary {
    pub in_amount: UiAmount,
    pub out_amount: UiAmount,
    /// The output in the worst case that the slippage allows.
    pub worst_case: UiAmount,
    pub route: String,
}

/// The label shown for a hop that carries none.
pub open spec fn unknown_route() -> Seq<char> {
    "Unknown DEX"@
}

/// The label under which a quote's route is shown: that of its first hop.
pub open spec fn route_label_of(quote: Quote) -> Seq<char> {
    match quote.route_plan[0].label {
        Some(label) => label@,
        None => unknown_route(),
    }
}

/// The label under which the route of `quote` is shown: the label of the
/// first-ranked hop, or `Unknown DEX` where that hop has none.
pub fn route_label(quote: &Quote) -> (r: String)
    requires
        quote.route_plan.len() > 0,
    ensures
        r@ == route_label_of(*quote),
{
    match &quote.route_plan[0].label {
        Some(label) => label.clone(),
        None => String::from_str("Unknown DEX"),
    }
}

/// Summarizes a quote for display at the precisions of its tokens.
pub fn summarize(quote: &Quote, in_decimals: u8, out_decimals: u8) -> (r: QuoteSummary)
    requires
        quote.route_plan.len() > 0,
    ensures
        r.in_amount == (UiAmount { raw: quote.in_amount, decimals: in_decimals }),
        r.out_amount == (UiAmount { raw: quote.out_amount, decimals: out_decimals }),
        r.worst_case == (UiAmount { raw: quote.other_amount_threshold, decimals: out_decimals }),
        r.route@ == route_label_of(*quote),
{
    QuoteSummary {
        in_amount: UiAmount { raw: quote.in_amount, decimals: in_decimals },
        out_amount: UiAmount { raw: quote.out_amount, decimals: out_decimals },
        worst_case: UiAmount { raw: quote.other_amount_threshold, decimals: out_decimals },
        route: route_label(quote),
    }
}

} // verus!
