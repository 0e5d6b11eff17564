use solana_swap::amount::UiAmount;
use solana_swap::display::parse_display;
use solana_swap::quote::{route_label, summarize, Quote, RouteHop};
use solana_swap::address::Address;

fn shown(raw: u64, decimals: u8) -> String {
    UiAmount { raw, decimals }.display()
}

#[test]
fn worst_case_output_is_shown_as_0_95() {
    assert_eq!(shown(950_000, 6), "0.95");
    assert_eq!(shown(1_000_000, 6), "1");
    assert_eq!(format!("{}", spl_token::amount_to_ui_amount(950_000, 6)), "0.95");
    let quote = Quote {
        input_mint: Address { bytes: [1u8; 32] },
        in_amount: 60_000,
        output_mint: Address { bytes: [2u8; 32] },
        out_amount: 1_000_000,
        other_amount_threshold: 950_000,
        price_impact_pct: "0.0001".to_string(),
        route_plan: vec![RouteHop { label: Some("Orca".to_string()) }],
    };
    let summary = summarize(&quote, 9, 6);
    assert_eq!(summary.worst_case, UiAmount { raw: 950_000, decimals: 6 });
    assert_eq!(summary.worst_case.display(), "0.95");
    assert_eq!(summary.out_amount.display(), "1");
    assert_eq!(summary.in_amount.display(), "0.00006");
    assert_eq!(summary.route, "Orca");
}

#[test]
fn route_label_is_the_first_hop_or_unknown() {
    let mut quote = Quote {
        input_mint: Address { bytes: [1u8; 32] },
        in_amount: 1,
        output_mint: Address { bytes: [2u8; 32] },
        out_amount: 1,
        other_amount_threshold: 1,
        price_impact_pct: "0".to_string(),
        route_plan: vec![
            RouteHop { label: Some("Raydium".to_string()) },
            RouteHop { label: Some("Orca".to_string()) },
        ],
    };
    assert_eq!(route_label(&quote), "Raydium");
    quote.route_plan[0].label = None;
    assert_eq!(route_label(&quote), "Unknown DEX");
}

#[test]
fn display_exact_values() {
    assert_eq!(shown(0, 0), "0");
    assert_eq!(shown(0, 9), "0");
    assert_eq!(shown(42, 0), "42");
    assert_eq!(shown(1, 9), "0.000000001");
    assert_eq!(shown(1_500_000_000, 9), "1.5");
    assert_eq!(shown(60_000, 9), "0.00006");
    assert_eq!(shown(123_456_789, 3), "123456.789");
    assert_eq!(shown(100, 2), "1");
    assert_eq!(shown(110, 2), "1.1");
    assert_eq!(shown(u64::MAX, 0), "18446744073709551615");
    assert_eq!(shown(u64::MAX, 19), "1.8446744073709551615");
    assert_eq!(shown(u64::MAX, 20), "0.18446744073709551615");
    assert_eq!(shown(10, 20), "0.0000000000000000001");
}

#[test]
fn display_at_the_largest_precision() {
    let text = shown(7, 255);
    assert_eq!(text.len(), 2 + 255);
    assert!(text.starts_with("0.000"));
    assert!(text.ends_with("07"));
    assert_eq!(parse_display(&text, 255), Some(7));
}

#[test]
fn display_agrees_with_the_token_crate() {
    let raws = [0u64, 1, 9, 10, 99, 100, 950_000, 1_000_000, 60_000, 123_456_789, u64::MAX, u64::MAX - 1, 1 << 63, 10_000_000_000_000_000_000];
    for raw in raws {
        for decimals in [0u8, 1, 2, 6, 9, 18, 19, 20, 21, 40, 255] {
            assert_eq!(
                shown(raw, decimals),
                spl_token::amount_to_ui_amount_string_trimmed(raw, decimals),
                "{} at {}",
                raw,
                decimals
            );
        }
    }
}

#[test]
fn display_round_trips() {
    let raws = [0u64, 1, 9, 10, 99, 100, 950_000, 1_000_000, 60_000, 123_456_789, u64::MAX, u64::MAX - 1, 1 << 63];
    for raw in raws {
        for decimals in [0u8, 1, 2, 6, 9, 18, 19, 20, 21, 40, 255] {
            let text = shown(raw, decimals);
            let back = parse_display(&text, decimals);
            assert_eq!(back, Some(raw), "{:?} at {}", text, decimals);
            assert_eq!(shown(back.unwrap(), decimals), text);
        }
    }
}

#[test]
fn parse_display_exact_values() {
    assert_eq!(parse_display("0.95", 6), Some(950_000));
    assert_eq!(parse_display("1", 6), Some(1_000_000));
    assert_eq!(parse_display("1.000000", 6), Some(1_000_000));
    assert_eq!(parse_display("007.50", 2), Some(750));
    assert_eq!(parse_display("18446744073709551615", 0), Some(u64::MAX));
    assert_eq!(parse_display("1844674407370955.1615", 4), Some(u64::MAX));
    assert_eq!(parse_display("0", 255), Some(0));
}

#[test]
fn parse_display_refuses_what_is_no_amount() {
    assert_eq!(parse_display("", 6), None);
    assert_eq!(parse_display(".", 6), None);
    assert_eq!(parse_display(".5", 6), None);
    assert_eq!(parse_display("5.", 6), None);
    assert_eq!(parse_display("1.2.3", 6), None);
    assert_eq!(parse_display("1.0000001", 6), None);
    assert_eq!(parse_display("1.5", 0), None);
    assert_eq!(parse_display("+1", 6), None);
    assert_eq!(parse_display("-1", 6), None);
    assert_eq!(parse_display("1a", 6), None);
    assert_eq!(parse_display("1.a", 6), None);
    assert_eq!(parse_display("18446744073709551616", 0), None);
    assert_eq!(parse_display("1844674407370955.1616", 4), None);
    assert_eq!(parse_display("1", 20), None);
    assert_eq!(parse_display("1", 255), None);
}
