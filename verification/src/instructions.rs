use vstd::prelude::*;

use crate::error::DecodeError;
use vstd::bytes::spec_u32_from_le_bytes;
use vstd::bytes::u32_from_le_bytes;
use vstd::slice::slice_index_get;
use vstd::slice::slice_subrange;

verus! {

/// Payload of an increment instruction.
#[derive(Clone, Copy, Debug, PartialEq, Eq, Structural)]
pub struct IncrementArgs {
    pub value: u32,
}

/// Payload of a decrement instruction.
#[derive(Clone, Copy, Debug, PartialEq, Eq, Structural)]
pub struct DecrementArgs {
    pub value: u32,
}

/// Payload of an update instruction.
#[derive(Clone, Copy, Debug, PartialEq, Eq, Structural)]
pub struct UpdateArgs {
    pub value: u32,
}

/// A decoded counter instruction.
///
/// On the wire, byte 0 is the tag (0 increment, 1 decrement, 2 update,
/// 3 reset); tags 0, 1 and 2 are followed by a 4-byte little-endian
/// payload. Trailing bytes beyond the payload are ignored.
#[derive(Clone, Copy, Debug, PartialEq, Eq, Structural)]
pub enum CounterInstructions {
    Increment(IncrementArgs),
    Decrement(DecrementArgs),
    Update(UpdateArgs),
    Reset,
}

/// What decoding an instruction buffer yields: the tag byte selects the
/// variant, and tags 0, 1 and 2 read their argument from the 4 bytes
/// that follow the tag, little-endian.
pub open spec fn spec_unpack(bytes: Seq<u8>) -> Result<CounterInstructions, DecodeError> {
    if bytes.len() == 0 {
        Err(DecodeError::Empty)
    } else if bytes[0] == 0 {
        if bytes.len() < 5 {
            Err(DecodeError::TruncatedPayload)
        } else {
            Ok(
                CounterInstructions::Increment(
                    IncrementArgs { value: spec_u32_from_le_bytes(bytes.subrange(1, 5)) },
                ),
            )
        }
    } else if bytes[0] == 1 {
        if bytes.len() < 5 {
            Err(DecodeError::TruncatedPayload)
        } else {
            Ok(
                CounterInstructions::Decrement(
                    DecrementArgs { value: spec_u32_from_le_bytes(bytes.subrange(1, 5)) },
                ),
            )
        }
    } else if bytes[0] == 2 {
        if bytes.len() < 5 {
            Err(DecodeError::TruncatedPayload)
        } else {
            Ok(
                CounterInstructions::Update(
                    UpdateArgs { value: spec_u32_from_le_bytes(bytes.subrange(1, 5)) },
                ),
            )
        }
    } else if bytes[0] == 3 {
        Ok(CounterInstructions::Reset)
    } else {
        Err(DecodeError::UnknownTag)
    }
}

impl CounterInstructions {
    /// Decode an instruction from a byte buffer.
    ///
    /// Fails with `Empty` on an empty buffer, `UnknownTag` on a tag
    /// outside 0..=3, and `TruncatedPayload` when a tag that carries an
    /// argument is followed by fewer than 4 bytes.
    pub fn unpack(input: &[u8]) -> (result: Result<Self, DecodeError>)
        ensures
            result == spec_unpack(input@),
    {
        if input.len() == 0 {
            return Err(DecodeError::Empty);
        }
        let tag = *slice_index_get(input, 0);
        if tag > 3 {
            return Err(DecodeError::UnknownTag);
        }
        if tag == 3 {
            return Ok(CounterInstructions::Reset);
        }
        if input.len() < 5 {
            return Err(DecodeError::TruncatedPayload);
        }
        let value = u32_from_le_bytes(slice_subrange(input, 1, 5));
        match tag {
            0 => Ok(CounterInstructions::Increment(IncrementArgs { value })),
            1 => Ok(CounterInstructions::Decrement(DecrementArgs { value })),
            _ => Ok(CounterInstructions::Update(UpdateArgs { value })),
        }
    }
}

} // verus!
