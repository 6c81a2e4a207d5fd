use vstd::prelude::*;

use crate::error::DecodeError;
use vstd::bytes::lemma_auto_spec_u32_to_from_le_bytes;
use vstd::bytes::spec_u32_from_le_bytes;
use vstd::bytes::spec_u32_to_le_bytes;
use vstd::bytes::u32_from_le_bytes;
use vstd::bytes::u32_to_le_bytes;
use vstd::slice::slice_subrange;

verus! {

/// The persisted counter record.
///
/// Its on-wire form is exactly 4 bytes: `counter` as an unsigned 32-bit
/// little-endian integer.
#[derive(Clone, Copy, Debug, PartialEq, Eq, Structural)]
pub struct CounterAccount {
    pub counter: u32,
}

/// The 4 bytes that a counter record encodes to.
pub open spec fn spec_encode_state(state: CounterAccount) -> Seq<u8> {
    spec_u32_to_le_bytes(state.counter)
}

/// What decoding a state region yields: the first 4 bytes read as a
/// little-endian counter, or `TruncatedState` when fewer are there.
pub open spec fn spec_decode_state(bytes: Seq<u8>) -> Result<CounterAccount, DecodeError> {
    if bytes.len() < 4 {
        Err(DecodeError::TruncatedState)
    } else {
        Ok(CounterAccount { counter: spec_u32_from_le_bytes(bytes.subrange(0, 4)) })
    }
}

/// Encode a counter record as its 4-byte little-endian form.
pub fn encode_state(state: &CounterAccount) -> (result: Vec<u8>)
    ensures
        result@ == spec_encode_state(*state),
        result@.len() == 4,
{
    u32_to_le_bytes(state.counter)
}

/// Decode a counter record from a state region.
///
/// Fails with `TruncatedState` when fewer than 4 bytes are available;
/// bytes beyond the first 4 are ignored.
pub fn decode_state(bytes: &[u8]) -> (result: Result<CounterAccount, DecodeError>)
    ensures
        result == spec_decode_state(bytes@),
{
    if bytes.len() < 4 {
        return Err(DecodeError::TruncatedState);
    }
    let counter = u32_from_le_bytes(slice_subrange(bytes, 0, 4));
    Ok(CounterAccount { counter })
}

/// Round-trip law: decoding an encoded counter record yields the record
/// back, for every value of the counter.
pub proof fn lemma_state_round_trip(state: CounterAccount)
    ensures
        spec_decode_state(spec_encode_state(state)) == Ok::<CounterAccount, DecodeError>(state),
{
    lemma_auto_spec_u32_to_from_le_bytes();
    assert(spec_encode_state(state).subrange(0, 4) =~= spec_encode_state(state));
}

} // verus!
