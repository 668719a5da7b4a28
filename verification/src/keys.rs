//! Account addresses and their derivation from seeds.
use vstd::prelude::*;

verus! {

/// A 256-bit account address: the 32 bytes, low byte first, as two numbers.
#[derive(Clone, Copy, Debug, PartialEq, Eq, Structural)]
pub struct Pubkey {
    pub hi: u128,
    pub lo: u128,
}

impl Pubkey {
    /// The all-zero address, which stands for "nobody" in every account field.
    pub open spec fn none() -> Pubkey {
        Pubkey { hi: 0, lo: 0 }
    }

    /// The all-zero address.
    #[verifier::when_used_as_spec(none)]
    pub fn default_key() -> (r: Pubkey)
        ensures
            r == Pubkey::none(),
    {
        Pubkey { hi: 0, lo: 0 }
    }

    /// Whether this is the all-zero address.
    pub fn is_default(&self) -> (r: bool)
        ensures
            r == (*self == Pubkey::none()),
    {
        self.hi == 0 && self.lo == 0
    }
}

} // verus!
