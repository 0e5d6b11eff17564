//! The mint resolver: from a fetched account to validated token metadata.

use vstd::prelude::*;
use spl_token::solana_program::program_error::ProgramError;
use spl_token::solana_program::program_pack::Pack;
use crate::address::{token_program, Address};

verus! {

/// Token metadata held by a mint account.
#[derive(Clone, Copy, Debug, PartialEq, Eq)]
pub struct Mint {
    /// Authority that may mint new tokens; absent for a fixed supply.
    pub mint_authority: Option<Address>,
    /// Total supply, in base units.
    pub supply: u64,
    /// Number of base-10 digits to the right of the decimal point.
    pub decimals: u8,
    /// Whether the mint has been initialized.
    pub is_initialized: bool,
    /// Authority that may freeze token accounts, if any.
    pub freeze_authority: Option<Address>,
}

/// The mathematical content of a [`Mint`].
pub ghost struct MintView {
    pub mint_authority: Option<Seq<u8>>,
    pub supply: nat,
    pub decimals: u8,
    pub is_initialized: bool,
    pub freeze_authority: Option<Seq<u8>>,
}

pub open spec fn option_view(key: Option<Address>) -> Option<Seq<u8>> {
    match key {
        Some(address) => Some(address@),
        None => None,
    }
}

impl View for Mint {
    type V = MintView;

    open spec fn view(&self) -> MintView {
        MintView {
            mint_authority: option_view(self.mint_authority),
            supply: self.supply as nat,
            decimals: self.decimals,
            is_initialized: self.is_initialized,
            freeze_authority: option_view(self.freeze_authority),
        }
    }
}

/// Why the payload of an account is not a usable mint.
#[derive(Clone, Copy, Debug, PartialEq, Eq, Structural)]
pub enum UnpackError {
    /// Wrong length, or a field holds a value outside its encoding.
    InvalidAccountData,
    /// Well-formed, but the mint was never initialized.
    UninitializedAccount,
}

/// Why a mint could not be resolved.
#[derive(Clone, Copy, Debug, PartialEq, Eq, Structural)]
pub enum MintError {
    /// The account query itself failed.
    LookupFailed,
    /// No account exists at the address.
    AccountNotFound,
    /// The account is owned by a program other than the token program.
    InvalidOwner,
    /// The payload does not deserialize into an initialized mint.
    MalformedMintData(UnpackError),
    /// The mint's decimals differ from the count the caller expected.
    DecimalMismatch,
}

/// What the network holds at an address, as far as the resolver reads it.
#[derive(Clone, Debug, PartialEq, Eq)]
pub struct AccountData {
    /// The program that owns the account.
    pub owner: Address,
    /// The raw payload.
    pub data: Vec<u8>,
}

/// The outcome of querying the network for an account.
#[derive(Clone, Debug, PartialEq, Eq)]
pub enum AccountLookup {
    /// The account exists.
    Found(AccountData),
    /// The query succeeded and no account exists at the address.
    Missing,
    /// The query failed.
    Failed,
}

/// Length of a packed mint.
pub const MINT_LEN: usize = 82;

/// Whether the four bytes at `at` are the tag of an optional key: a
/// little-endian 0 (absent) or 1 (present).
pub open spec fn key_tag_valid(data: Seq<u8>, at: int) -> bool {
    &&& data[at] == 0 || data[at] == 1
    &&& data[at + 1] == 0
    &&& data[at + 2] == 0
    &&& data[at + 3] == 0
}

/// The optional key packed in the 36 bytes at `at`: four bytes of tag, then
/// the key.
pub open spec fn packed_key(data: Seq<u8>, at: int) -> Option<Seq<u8>> {
    if data[at] == 1 {
        Some(data.subrange(at + 4, at + 36))
    } else {
        None
    }
}

/// The little-endian value of the eight bytes at `at`.
pub open spec fn packed_u64(data: Seq<u8>, at: int) -> nat {
    (data[at] as nat) + 0x100 * (data[at + 1] as nat) + 0x1_0000 * (data[at + 2] as nat)
        + 0x100_0000 * (data[at + 3] as nat) + 0x1_0000_0000 * (data[at + 4] as nat)
        + 0x100_0000_0000 * (data[at + 5] as nat) + 0x1_0000_0000_0000 * (data[at + 6] as nat)
        + 0x100_0000_0000_0000 * (data[at + 7] as nat)
}

/// Whether `data` has the layout of a packed mint: 82 bytes, made of the mint
/// authority (36), the supply (8), the decimals (1), the initialization flag
/// (1) and the freeze authority (36), each within its encoding.
pub open spec fn mint_layout_valid(data: Seq<u8>) -> bool {
    &&& data.len() == MINT_LEN
    &&& key_tag_valid(data, 0)
    &&& data[45] == 0 || data[45] == 1
    &&& key_tag_valid(data, 46)
}

/// The fields that a validly laid out payload holds.
pub open spec fn mint_fields(data: Seq<u8>) -> MintView {
    MintView {
        mint_authority: packed_key(data, 0),
        supply: packed_u64(data, 36),
        decimals: data[44],
        is_initialized: data[45] == 1,
        freeze_authority: packed_key(data, 46),
    }
}

/// What unpacking `data` as a mint gives.
pub open spec fn unpacked_mint(data: Seq<u8>) -> Result<MintView, UnpackError> {
    if !mint_layout_valid(data) {
        Err(UnpackError::InvalidAccountData)
    } else if data[45] == 0 {
        Err(UnpackError::UninitializedAccount)
    } else {
        Ok(mint_fields(data))
    }
}

/// The view of a resolver's result.
pub open spec fn result_view<E>(r: Result<Mint, E>) -> Result<MintView, E> {
    match r {
        Ok(mint) => Ok(mint@),
        Err(e) => Err(e),
    }
}

/// Unpacks a mint with `spl_token::state::Mint::unpack` (the `Pack` impl of
/// the token program's mint).
///
/// Trusted: the call fails with `InvalidAccountData` unless the payload is 82
/// bytes long with both authority tags and the initialization flag inside
/// their encodings, fails with `UninitializedAccount` where the flag is 0, and
/// otherwise returns the fields read at their fixed offsets.
#[verifier::external_body]
fn unpack_mint(data: &Vec<u8>) -> (r: Result<Mint, UnpackError>)
    ensures
        result_view(r) == unpacked_mint(data@),
{
    match spl_token::state::Mint::unpack(data) {
        Ok(mint) => Ok(Mint {
            mint_authority: Option::from(mint.mint_authority.map(|key| Address { bytes: key.to_bytes() })),
            supply: mint.supply,
            decimals: mint.decimals,
            is_initialized: mint.is_initialized,
            freeze_authority: Option::from(mint.freeze_authority.map(|key| Address { bytes: key.to_bytes() })),
        }),
        Err(ProgramError::UninitializedAccount) => Err(UnpackError::UninitializedAccount),
        Err(_) => Err(UnpackError::InvalidAccountData),
    }
}

/// What resolving a mint from a lookup gives: the first failing check, in the
/// order lookup, existence, owner, payload, expected decimals.
pub open spec fn resolved_mint(lookup: AccountLookup, expected_decimals: Option<u8>) -> Result<
    MintView,
    MintError,
> {
    match lookup {
        AccountLookup::Failed => Err(MintError::LookupFailed),
        AccountLookup::Missing => Err(MintError::AccountNotFound),
        AccountLookup::Found(account) => {
            if !account.owner.is_token_program() {
                Err(MintError::InvalidOwner)
            } else {
                match unpacked_mint(account.data@) {
                    Err(e) => Err(MintError::MalformedMintData(e)),
                    Ok(mint) => {
                        if expected_decimals matches Some(d) && d != mint.decimals {
                            Err(MintError::DecimalMismatch)
                        } else {
                            Ok(mint)
                        }
                    },
                }
            }
        },
    }
}

/// Resolves token metadata from the account found at a mint's address.
///
/// Fails when the lookup failed, when no account exists, when the account is
/// not owned by the token program, and when its payload is not an
/// initialized mint. With `expected_decimals`, a mint of another precision is
/// refused as well.
pub fn get_mint_info(lookup: &AccountLookup, expected_decimals: Option<u8>) -> (r: Result<
    Mint,
    MintError,
>)
    ensures
        result_view(r) == resolved_mint(*lookup, expected_decimals),
{
    match lookup {
        AccountLookup::Failed => Err(MintError::LookupFailed),
        AccountLookup::Missing => Err(MintError::AccountNotFound),
        AccountLookup::Found(account) => {
            let program = token_program();
            proof {
                if account.owner@ == program@ {
                    assert(account.owner.bytes =~= program.bytes);
                }
            }
            if account.owner != program {
                return Err(MintError::InvalidOwner);
            }
            match unpack_mint(&account.data) {
                Err(e) => Err(MintError::MalformedMintData(e)),
                Ok(mint) => {
                    match expected_decimals {
                        Some(d) => {
                            if d != mint.decimals {
                                return Err(MintError::DecimalMismatch);
                            }
                        },
                        None => {},
                    }
                    Ok(mint)
                },
            }
        },
    }
}

} // verus!
