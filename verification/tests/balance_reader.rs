use solana_swap::address::{is_native_mint, native_mint, Address, NATIVE_DECIMALS};
use solana_swap::amount::{parse_amount, UiAmount};
use solana_swap::balance::{
    balance_query, balance_query_with, get_token_balance, BalanceError, BalanceQuery, BalanceReply,
};
use spl_token::solana_program::pubkey::Pubkey;

fn address(text: &str) -> Address {
    let bytes = bs58::decode(text).into_vec().unwrap();
    let mut out = [0u8; 32];
    out.copy_from_slice(&bytes);
    Address { bytes: out }
}

#[test]
fn native_mint_matches_the_token_crate() {
    assert_eq!(native_mint().bytes, spl_token::native_mint::id().to_bytes());
    assert_eq!(native_mint(), address("So11111111111111111111111111111111111111112"));
    assert_eq!(NATIVE_DECIMALS, spl_token::native_mint::DECIMALS);
    assert_eq!(NATIVE_DECIMALS, 9);
}

#[test]
fn only_the_sentinel_is_native() {
    assert!(is_native_mint(&native_mint()));
    assert!(!is_native_mint(&address("6p6xgHyF7AeE6TZkSmFsko444wqoP15icUSqi2jfGiPN")));
    let mut almost = native_mint();
    almost.bytes[31] = 2;
    assert!(!is_native_mint(&almost));
    assert!(!is_native_mint(&Address { bytes: [0u8; 32] }));
}

#[test]
fn native_balance_is_queried_on_the_owner() {
    let owner = Address { bytes: [5u8; 32] };
    assert_eq!(balance_query(&owner, &native_mint()), Ok(BalanceQuery::Native { owner }));
}

#[test]
fn token_balance_is_queried_on_the_associated_account() {
    let owner = address("6p6xgHyF7AeE6TZkSmFsko444wqoP15icUSqi2jfGiPN");
    let mint = address("TokenkegQfeZyiNwAJbNbGKPFXCWuBvf9Ss623VQ5DA");
    let expected = spl_associated_token_account::get_associated_token_address(
        &Pubkey::new_from_array(owner.bytes),
        &Pubkey::new_from_array(mint.bytes),
    );
    let query = balance_query(&owner, &mint).unwrap();
    assert_eq!(query, BalanceQuery::Token { account: Address { bytes: expected.to_bytes() } });
    assert_ne!(query, BalanceQuery::Token { account: owner });
    assert_ne!(query, BalanceQuery::Token { account: mint });
}

#[test]
fn associated_account_depends_on_owner_and_mint() {
    let a = Address { bytes: [1u8; 32] };
    let b = Address { bytes: [2u8; 32] };
    let c = Address { bytes: [3u8; 32] };
    for (owner, mint) in [(a, b), (b, a), (a, c), (c, c)] {
        let expected = spl_associated_token_account::get_associated_token_address(
            &Pubkey::new_from_array(owner.bytes),
            &Pubkey::new_from_array(mint.bytes),
        );
        assert_eq!(
            balance_query(&owner, &mint),
            Ok(BalanceQuery::Token { account: Address { bytes: expected.to_bytes() } })
        );
    }
    assert_ne!(balance_query(&a, &b), balance_query(&b, &a));
}

#[test]
fn query_from_a_derived_account() {
    let owner = Address { bytes: [1u8; 32] };
    let token = Address { bytes: [2u8; 32] };
    let account = Address { bytes: [3u8; 32] };
    assert_eq!(
        balance_query_with(&owner, &token, Some(account)),
        Ok(BalanceQuery::Token { account })
    );
    assert_eq!(
        balance_query_with(&owner, &token, None),
        Err(BalanceError::NoAssociatedAddress)
    );
    assert_eq!(
        balance_query_with(&owner, &native_mint(), None),
        Ok(BalanceQuery::Native { owner })
    );
    assert_eq!(
        balance_query_with(&owner, &native_mint(), Some(account)),
        Ok(BalanceQuery::Native { owner })
    );
}

#[test]
fn native_reply_gives_the_native_balance() {
    assert_eq!(
        get_token_balance(&native_mint(), 9, &BalanceReply::Native(1_500_000_000)),
        Ok(UiAmount { raw: 1_500_000_000, decimals: 9 })
    );
}

#[test]
fn token_reply_gives_the_parsed_amount() {
    let token = Address { bytes: [2u8; 32] };
    assert_eq!(
        get_token_balance(&token, 6, &BalanceReply::Token("950000".to_string())),
        Ok(UiAmount { raw: 950_000, decimals: 6 })
    );
    assert_eq!(
        get_token_balance(&token, 0, &BalanceReply::Token("18446744073709551615".to_string())),
        Ok(UiAmount { raw: u64::MAX, decimals: 0 })
    );
}

#[test]
fn never_held_token_fails_and_is_no_zero_balance() {
    let token = Address { bytes: [2u8; 32] };
    let read = get_token_balance(&token, 6, &BalanceReply::Failed);
    assert_eq!(read, Err(BalanceError::QueryFailed));
    assert_ne!(read, Ok(UiAmount { raw: 0, decimals: 6 }));
    assert_eq!(
        get_token_balance(&native_mint(), 9, &BalanceReply::Failed),
        Err(BalanceError::QueryFailed)
    );
}

#[test]
fn reply_of_the_other_kind_is_refused() {
    let token = Address { bytes: [2u8; 32] };
    assert_eq!(
        get_token_balance(&token, 6, &BalanceReply::Native(1)),
        Err(BalanceError::UnexpectedReply)
    );
    assert_eq!(
        get_token_balance(&native_mint(), 9, &BalanceReply::Token("1".to_string())),
        Err(BalanceError::UnexpectedReply)
    );
}

#[test]
fn malformed_amount_is_refused() {
    let token = Address { bytes: [2u8; 32] };
    for text in ["", "+", "-1", "1.5", "12a", " 1", "1 ", "18446744073709551616", "１"] {
        assert_eq!(
            get_token_balance(&token, 6, &BalanceReply::Token(text.to_string())),
            Err(BalanceError::MalformedAmount),
            "{:?}",
            text
        );
    }
}

#[test]
fn parse_amount_agrees_with_the_standard_parser() {
    let texts = [
        "0",
        "7",
        "+7",
        "007",
        "60000",
        "18446744073709551615",
        "18446744073709551616",
        "184467440737095516150",
        "99999999999999999999",
        "000000000000000000000000000001",
        "",
        "+",
        "++1",
        "-0",
        "1+",
        "1_000",
        "0x10",
        "1e3",
        "٣",
        "12 ",
    ];
    for text in texts {
        assert_eq!(parse_amount(text), text.parse::<u64>().ok(), "{:?}", text);
    }
}

#[test]
fn parse_amount_exact_values() {
    assert_eq!(parse_amount("60000"), Some(60_000));
    assert_eq!(parse_amount("+500"), Some(500));
    assert_eq!(parse_amount("18446744073709551615"), Some(u64::MAX));
    assert_eq!(parse_amount("18446744073709551616"), None);
    assert_eq!(parse_amount(""), None);
}
