//! Swap transactions as the orchestrator carries them: the skeleton that the
//! building service returns and the signed transaction that is submitted.

use vstd::prelude::*;
use vstd::std_specs::cmp::PartialEqSpecImpl;

verus! {

/// A freshness token: the reference to a recent block that a transaction
/// must carry, valid for a short window.
#[derive(Clone, Copy, Debug, Eq)]
pub struct Blockhash {
    pub bytes: [u8; 32],
}

impl View for Blockhash {
    type V = Seq<u8>;

    open spec fn view(&self) -> Seq<u8> {
        self.bytes@
    }
}

impl PartialEq for Blockhash {
    fn eq(&self, other: &Self) -> (r: bool) {
        let mut i: usize = 0;
        while i < 32
            invariant
                i <= 32,
                forall|j: int| 0 <= j < i ==> self.bytes[j] == other.bytes[j],
            decreases 32 - i,
        {
            if self.bytes[i] != other.bytes[i] {
                return false;
            }
            i += 1;
        }
        proof {
            assert(self.bytes =~= other.bytes);
        }
        true
    }
}

impl PartialEqSpecImpl for Blockhash {
    open spec fn obeys_eq_spec() -> bool {
        true
    }

    open spec fn eq_spec(&self, other: &Self) -> bool {
        *self == *other
    }
}

/// The transaction skeleton that the building service returns: its message,
/// serialized. The freshness token inside it is a placeholder.
#[derive(Clone, Debug, PartialEq, Eq)]
pub struct UnsignedSwapTransaction {
    pub bytes: Vec<u8>,
}

/// The reply of the building service: the skeleton and the service's own
/// expiry marker.
#[derive(Clone, Debug, PartialEq, Eq)]
pub struct BuiltSwap {
    pub transaction: UnsignedSwapTransaction,
    pub last_valid_block_height: u64,
}

/// A transaction after finalization: the freshness token that its message
/// carries, the signature over that message, and the message, serialized.
#[derive(Clone, Debug, PartialEq, Eq)]
pub struct SignedTransaction {
    pub recent_blockhash: Blockhash,
    pub signature: [u8; 64],
    pub bytes: Vec<u8>,
}

/// What a dry run of the signed transaction reported.
#[derive(Clone, Copy, Debug, PartialEq, Eq, Structural)]
pub enum SimulationOutcome {
    /// The transaction would succeed against the current state.
    Passed,
    /// The transaction would fail, for instance for want of balance or
    /// because the slippage threshold cannot be met.
    Rejected,
}

} // verus!
