use vstd::prelude::*;

verus! {

/// Why a byte buffer could not be decoded.
///
/// Every failure of the library is one of these; the transition engine
/// itself is total and never fails.
#[derive(Clone, Copy, Debug, PartialEq, Eq, Structural)]
pub enum DecodeError {
    /// The instruction buffer was empty.
    Empty,
    /// The leading tag byte named no known instruction.
    UnknownTag,
    /// The tag demanded a 4-byte payload, but fewer bytes followed.
    TruncatedPayload,
    /// The state region held fewer than the 4 bytes of a counter record.
    TruncatedState,
}

} // verus!
