//! The balance reader: which query answers for a token's balance, and what
//! the reply amounts to.

use vstd::prelude::*;
use spl_associated_token_account::solana_program::pubkey::Pubkey;
use crate::address::{address_of, is_native_mint, lemma_address_of, Address};
use crate::amount::{parse_amount, parsed_amount, UiAmount};

verus! {

/// The query that answers for an owner's balance of one token.
#[derive(Clone, Copy, Debug, PartialEq, Eq)]
pub enum BalanceQuery {
    /// The owner's balance of the native asset.
    Native { owner: Address },
    /// The token balance of the owner's associated account.
    Token { account: Address },
}

/// What the network answered to a [`BalanceQuery`].
#[derive(Clone, Debug, PartialEq, Eq)]
pub enum BalanceReply {
    /// A native balance, in base units.
    Native(u64),
    /// A token account's balance, as the decimal text of its raw amount.
    Token(String),
    /// The query failed; so it does where the queried account does not exist.
    Failed,
}

/// Why a balance could not be read.
#[derive(Clone, Copy, Debug, PartialEq, Eq, Structural)]
pub enum BalanceError {
    /// No associated account address exists for the owner and the token.
    NoAssociatedAddress,
    /// The query failed, as it does for an owner who never held the token.
    QueryFailed,
    /// The reply answers the other kind of query.
    UnexpectedReply,
    /// The reported amount is not the decimal text of a 64-bit amount.
    MalformedAmount,
}

/// The bytes of the associated account address of an owner and a token mint;
/// `None` where the derivation finds no address.
pub uninterp spec fn associated_token_address(owner: Seq<u8>, mint: Seq<u8>) -> Option<Seq<u8>>;

/// Derives the address of the associated token account of `owner` for `mint`.
///
/// Trusted: this is the derivation of
/// `spl_associated_token_account::get_associated_token_address`, a program
/// address of the associated-token program with the owner, the token program
/// and the mint as seeds, made with `Pubkey::try_find_program_address`, which
/// returns `None` where the former would panic for want of a bump seed. The
/// result depends on the two addresses alone.
#[verifier::external_body]
fn derive_associated_address(owner: &Address, mint: &Address) -> (r: Option<Address>)
    ensures
        address_view(r) == associated_token_address(owner@, mint@),
{
    let token_program = spl_token::id().to_bytes();
    Pubkey::try_find_program_address(
        &[&owner.bytes, &token_program, &mint.bytes],
        &spl_associated_token_account::id(),
    ).map(|found| Address { bytes: found.0.to_bytes() })
}

/// The view of an optional address.
pub open spec fn address_view(address: Option<Address>) -> Option<Seq<u8>> {
    match address {
        Some(a) => Some(a@),
        None => None,
    }
}

/// The associated account of an owner for a token mint, where one exists.
pub open spec fn associated_account(owner: Address, mint: Address) -> Option<Address> {
    match associated_token_address(owner@, mint@) {
        Some(bytes) => Some(address_of(bytes)),
        None => None,
    }
}

/// The query for `token`, given the associated account that was derived for
/// it: the native asset is queried on the owner itself, any other token on
/// the associated account, and without such an account there is no query.
pub open spec fn query_with(owner: Address, token: Address, derived: Option<Address>) -> Result<
    BalanceQuery,
    BalanceError,
> {
    if token.is_native() {
        Ok(BalanceQuery::Native { owner })
    } else {
        match derived {
            Some(account) => Ok(BalanceQuery::Token { account }),
            None => Err(BalanceError::NoAssociatedAddress),
        }
    }
}

/// The query that answers for `owner`'s balance of `token`.
pub open spec fn query_for(owner: Address, token: Address) -> Result<BalanceQuery, BalanceError> {
    query_with(owner, token, associated_account(owner, token))
}

/// Chooses the query for `token` from an associated account already derived.
pub fn balance_query_with(owner: &Address, token: &Address, derived: Option<Address>) -> (r: Result<
    BalanceQuery,
    BalanceError,
>)
    ensures
        r == query_with(*owner, *token, derived),
{
    if is_native_mint(token) {
        Ok(BalanceQuery::Native { owner: *owner })
    } else {
        match derived {
            Some(account) => Ok(BalanceQuery::Token { account }),
            None => Err(BalanceError::NoAssociatedAddress),
        }
    }
}

/// Chooses the query that answers for `owner`'s balance of `token`.
pub fn balance_query(owner: &Address, token: &Address) -> (r: Result<BalanceQuery, BalanceError>)
    ensures
        r == query_for(*owner, *token),
{
    if is_native_mint(token) {
        Ok(BalanceQuery::Native { owner: *owner })
    } else {
        let derived = derive_associated_address(owner, token);
        proof {
            if let Some(account) = derived {
                lemma_address_of(account);
            }
        }
        balance_query_with(owner, token, derived)
    }
}

/// The balance that a reply amounts to for `token` at precision `decimals`.
pub open spec fn balance_of(token: Address, decimals: u8, reply: BalanceReply) -> Result<
    UiAmount,
    BalanceError,
> {
    match reply {
        BalanceReply::Failed => Err(BalanceError::QueryFailed),
        BalanceReply::Native(raw) => if token.is_native() {
            Ok(UiAmount { raw, decimals })
        } else {
            Err(BalanceError::UnexpectedReply)
        },
        BalanceReply::Token(text) => if token.is_native() {
            Err(BalanceError::UnexpectedReply)
        } else {
            match parsed_amount(text@) {
                Some(raw) => Ok(UiAmount { raw, decimals }),
                None => Err(BalanceError::MalformedAmount),
            }
        },
    }
}

/// Turns the reply to a balance query into the balance of `token`, at the
/// token's precision. A failed query is an error, never a zero balance.
pub fn get_token_balance(token: &Address, token_decimal: u8, reply: &BalanceReply) -> (r: Result<
    UiAmount,
    BalanceError,
>)
    ensures
        r == balance_of(*token, token_decimal, *reply),
{
    let native = is_native_mint(token);
    match reply {
        BalanceReply::Failed => Err(BalanceError::QueryFailed),
        BalanceReply::Native(raw) => {
            if native {
                Ok(UiAmount { raw: *raw, decimals: token_decimal })
            } else {
                Err(BalanceError::UnexpectedReply)
            }
        },
        BalanceReply::Token(text) => {
            if native {
                Err(BalanceError::UnexpectedReply)
            } else {
                match parse_amount(text.as_str()) {
                    Some(raw) => Ok(UiAmount { raw, decimals: token_decimal }),
                    None => Err(BalanceError::MalformedAmount),
                }
            }
        },
    }
}

} // verus!
