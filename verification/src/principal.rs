use vstd::prelude::*;

verus! {

/// An authenticated identity (a creator, an agent, or the deploying
/// authority): a 256-bit key held as four 64-bit words, word 0 first,
/// each word little-endian on the wire.
#[derive(Clone, Copy, PartialEq, Eq, Structural, Hash, Debug)]
pub struct Principal {
    pub w0: u64,
    pub w1: u64,
    pub w2: u64,
    pub w3: u64,
}

impl Principal {
    pub fn new(w0: u64, w1: u64, w2: u64, w3: u64) -> (r: Principal)
        ensures
            r == (Principal { w0, w1, w2, w3 }),
    {
        Principal { w0, w1, w2, w3 }
    }
}

} // verus!
