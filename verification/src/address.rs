//! The 32-byte external address embedded in outbound messages, and the one
//! error the resolver can raise.

use vstd::prelude::*;

verus! {

/// The 32-byte attribution value written into an outbound cross-chain
/// message: either the caller's own key or the invoking program's identifier.
#[derive(Clone, Copy, Debug, PartialEq, Eq)]
pub struct ExternalAddress {
    pub bytes: [u8; 32],
}

impl View for ExternalAddress {
    type V = Seq<u8>;

    open spec fn view(&self) -> Seq<u8> {
        self.bytes@
    }
}

impl ExternalAddress {
    /// Wraps a 32-byte value as an external address.
    pub fn new(bytes: [u8; 32]) -> (r: ExternalAddress)
        ensures
            r@ == bytes@,
    {
        ExternalAddress { bytes }
    }

    /// The raw 32 bytes of the address.
    pub fn to_bytes(&self) -> (r: [u8; 32])
        ensures
            r@ == self@,
    {
        self.bytes
    }
}

/// The only failure the resolver knows: the caller is not the sender
/// authority that the named program would hold, so it may not attribute the
/// transfer to that program.
#[derive(Clone, Copy, Debug, PartialEq, Eq, Structural)]
pub enum SenderError {
    AuthorizationError,
}

/// Compares two 32-byte values for equality, byte by byte.
pub fn bytes32_eq(a: &[u8; 32], b: &[u8; 32]) -> (r: bool)
    ensures
        r == (a@ == b@),
{
    let mut i: usize = 0;
    while i < 32
        invariant
            0 <= i <= 32,
            forall|j: int| 0 <= j < i ==> a@[j] == b@[j],
        decreases 32 - i,
    {
        if a[i] != b[i] {
            assert(a@ != b@);
            return false;
        }
        i += 1;
    }
    proof {
        assert(a@ =~= b@);
    }
    true
}

} // verus!
