use vstd::prelude::*;

verus! {

/// A 32-byte account address, held as four little-endian 64-bit words.
#[derive(Clone, Copy, Debug, PartialEq, Eq, Structural)]
pub struct Key {
    pub w0: u64,
    pub w1: u64,
    pub w2: u64,
    pub w3: u64,
}

impl Key {
    /// The all-zero address, which marks an unset record.
    pub open spec fn zero_spec() -> Key {
        Key { w0: 0, w1: 0, w2: 0, w3: 0 }
    }

    /// The all-zero address.
    pub fn zero() -> (r: Key)
        ensures
            r == Key::zero_spec(),
    {
        Key { w0: 0, w1: 0, w2: 0, w3: 0 }
    }

    /// Whether this is the all-zero address.
    pub fn is_zero(&self) -> (r: bool)
        ensures
            r == (*self == Key::zero_spec()),
    {
        *self == Key::zero()
    }
}

} // verus!
