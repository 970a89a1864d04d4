//! Account identities.

use vstd::prelude::*;

verus! {

/// A 32-byte account identity, held as four 64-bit words. The all-zero value
/// is a sentinel: a zero `pending_authority` means no handoff is in progress,
/// and a zero `dev_wallet` disables the developer fee leg.
#[derive(Clone, Copy, Debug, PartialEq, Eq, Hash, Structural)]
pub struct Identity {
    pub w0: u64,
    pub w1: u64,
    pub w2: u64,
    pub w3: u64,
}

impl Identity {
    /// The all-zero sentinel value.
    pub open spec fn spec_zero() -> Identity {
        Identity { w0: 0, w1: 0, w2: 0, w3: 0 }
    }

    /// True of the all-zero sentinel alone.
    pub open spec fn is_zero(&self) -> bool {
        *self == Identity::spec_zero()
    }

    /// Builds the all-zero sentinel.
    pub fn zero() -> (r: Identity)
        ensures
            r == Identity::spec_zero(),
    {
        Identity { w0: 0, w1: 0, w2: 0, w3: 0 }
    }
}

} // verus!
