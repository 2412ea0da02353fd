use vstd::prelude::*;

verus! {

/// An opaque principal reference: a 256-bit public-key identity, held as
/// four 64-bit words in little-endian word order.
///
/// The library never forges or derives identities; it only compares them.
/// Callers convert the runtime's 32-byte keys to and from this form.
#[derive(Debug, Clone, Copy, PartialEq, Eq, Structural)]
pub struct Identity {
    pub w0: u64,
    pub w1: u64,
    pub w2: u64,
    pub w3: u64,
}

impl Identity {
    pub fn new(w0: u64, w1: u64, w2: u64, w3: u64) -> (id: Identity)
        ensures
            id == (Identity { w0, w1, w2, w3 }),
    {
        Identity { w0, w1, w2, w3 }
    }
}

} // verus!
