//! Network addresses and the well-known addresses the swap logic tests for.

use vstd::prelude::*;
use vstd::std_specs::cmp::PartialEqSpecImpl;

verus! {

/// A 32-byte public network address: a token mint, an owner, a program or an
/// account.
#[derive(Clone, Copy, Debug, Eq)]
pub struct Address {
    pub bytes: [u8; 32],
}

impl View for Address {
    type V = Seq<u8>;

    open spec fn view(&self) -> Seq<u8> {
        self.bytes@
    }
}

impl PartialEq for Address {
    fn eq(&self, other: &Self) -> (r: bool) {
        let mut i: usize = 0;
        while i < 32
            invariant
                i <= 32,
                forall|j: int| 0 <= j < i ==> self.bytes[j] == other.bytes[j],
            decreases 32 - i,
        {
            if self.bytes[i] != other.bytes[i] {
                return false;
            }
            i += 1;
        }
        proof {
            assert(self.bytes =~= other.bytes);
        }
        true
    }
}

impl PartialEqSpecImpl for Address {
    open spec fn obeys_eq_spec() -> bool {
        true
    }

    open spec fn eq_spec(&self, other: &Self) -> bool {
        *self == *other
    }
}

/// Decimal precision of the native asset: fixed, never looked up.
pub const NATIVE_DECIMALS: u8 = 9;

/// The bytes of the sentinel address that stands for the native asset
/// (`So11111111111111111111111111111111111111112` in base 58).
pub open spec fn native_mint_bytes() -> Seq<u8> {
    seq![
        6u8, 155, 136, 87, 254, 171, 129, 132, 251, 104, 127, 99, 70, 24, 192, 53,
        218, 196, 57, 220, 26, 235, 59, 85, 152, 160, 240, 0, 0, 0, 0, 1,
    ]
}

/// The bytes of the token program's address
/// (`TokenkegQfeZyiNwAJbNbGKPFXCWuBvf9Ss623VQ5DA` in base 58).
pub open spec fn token_program_bytes() -> Seq<u8> {
    seq![
        6u8, 221, 246, 225, 215, 101, 161, 147, 217, 203, 225, 70, 206, 235, 121, 172,
        28, 180, 133, 237, 95, 91, 55, 145, 58, 140, 245, 133, 126, 255, 0, 169,
    ]
}

/// The address made of the given 32 bytes.
pub open spec fn address_of(bytes: Seq<u8>) -> Address {
    choose|a: Address| a@ == bytes
}

/// An address is determined by its bytes.
pub proof fn lemma_address_of(a: Address)
    ensures
        address_of(a@) == a,
{
    let b = address_of(a@);
    assert(b@ == a@);
    assert(b.bytes =~= a.bytes);
}

impl Address {
    /// Whether this address is the native-asset sentinel.
    pub open spec fn is_native(&self) -> bool {
        self@ == native_mint_bytes()
    }

    /// Whether this address is the token program.
    pub open spec fn is_token_program(&self) -> bool {
        self@ == token_program_bytes()
    }
}

/// The sentinel address of the native asset.
pub fn native_mint() -> (r: Address)
    ensures
        r@ == native_mint_bytes(),
{
    let r = Address {
        bytes: [
            6, 155, 136, 87, 254, 171, 129, 132, 251, 104, 127, 99, 70, 24, 192, 53,
            218, 196, 57, 220, 26, 235, 59, 85, 152, 160, 240, 0, 0, 0, 0, 1,
        ],
    };
    assert(r@ =~= native_mint_bytes());
    r
}

/// The address of the token program, which owns every mint account.
pub fn token_program() -> (r: Address)
    ensures
        r@ == token_program_bytes(),
{
    let r = Address {
        bytes: [
            6, 221, 246, 225, 215, 101, 161, 147, 217, 203, 225, 70, 206, 235, 121, 172,
            28, 180, 133, 237, 95, 91, 55, 145, 58, 140, 245, 133, 126, 255, 0, 169,
        ],
    };
    assert(r@ =~= token_program_bytes());
    r
}

/// Tests an address for the native-asset sentinel.
pub fn is_native_mint(token: &Address) -> (r: bool)
    ensures
        r == token.is_native(),
{
    let native = native_mint();
    proof {
        if token@ == native@ {
            assert(token.bytes =~= native.bytes);
        }
    }
    *token == native
}

} // verus!
