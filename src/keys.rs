use vstd::prelude::*;

verus! {

/// A 32-byte ledger address, held as four little-endian 64-bit words.
#[derive(Clone, Copy, Debug, PartialEq, Eq, Structural, Hash)]
pub struct Pubkey(pub u64, pub u64, pub u64, pub u64);

/// The all-zero address, which stands for "no party" in a wager record.
pub open spec fn unset_key() -> Pubkey {
    Pubkey(0, 0, 0, 0)
}

impl Pubkey {
    /// The all-zero address.
    pub fn unset() -> (r: Pubkey)
        ensures
            r == unset_key(),
    {
        Pubkey(0, 0, 0, 0)
    }

    /// Whether this is the all-zero address.
    pub fn is_unset(&self) -> (r: bool)
        ensures
            r == (*self == unset_key()),
    {
        *self == Pubkey::unset()
    }
}

} // verus!
