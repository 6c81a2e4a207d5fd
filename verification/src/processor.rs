use vstd::prelude::*;

use crate::error::DecodeError;
use crate::instructions::CounterInstructions;
use crate::instructions::UpdateArgs;
use crate::instructions::spec_unpack;
use crate::state::CounterAccount;
use crate::state::decode_state;
use crate::state::encode_state;
use crate::state::spec_decode_state;
use crate::state::spec_encode_state;

verus! {

/// The transition table: saturating increment, clamp-to-zero decrement,
/// unconditional update, reset to zero. Total on every state and
/// instruction.
pub open spec fn spec_apply(state: CounterAccount, instruction: CounterInstructions) -> CounterAccount {
    match instruction {
        CounterInstructions::Increment(args) => CounterAccount {
            counter: if state.counter + args.value > u32::MAX {
                u32::MAX
            } else {
                (state.counter + args.value) as u32
            },
        },
        CounterInstructions::Decrement(args) => CounterAccount {
            counter: if args.value > state.counter {
                0
            } else {
                (state.counter - args.value) as u32
            },
        },
        CounterInstructions::Update(args) => CounterAccount { counter: args.value },
        CounterInstructions::Reset => CounterAccount { counter: 0 },
    }
}

/// Apply one instruction to a counter record.
///
/// Never fails: an increment saturates at `u32::MAX`, and a decrement
/// larger than the counter clamps the counter to zero.
pub fn apply(state: CounterAccount, instruction: CounterInstructions) -> (result: CounterAccount)
    ensures
        result == spec_apply(state, instruction),
{
    match instruction {
        CounterInstructions::Increment(args) => CounterAccount {
            counter: state.counter.saturating_add(args.value),
        },
        CounterInstructions::Decrement(args) => {
            if args.value > state.counter {
                CounterAccount { counter: 0 }
            } else {
                CounterAccount { counter: state.counter - args.value }
            }
        },
        CounterInstructions::Update(args) => CounterAccount { counter: args.value },
        CounterInstructions::Reset => CounterAccount { counter: 0 },
    }
}

/// Overwrite law: an update instruction sets the counter to its
/// argument, whatever the counter held before.
pub proof fn lemma_update_overwrites(state: CounterAccount, value: u32)
    ensures
        spec_apply(state, CounterInstructions::Update(UpdateArgs { value })).counter == value,
{
}

/// Reset law: a reset instruction zeroes the counter, whatever the
/// counter held before.
pub proof fn lemma_reset_zeroes(state: CounterAccount)
    ensures
        spec_apply(state, CounterInstructions::Reset).counter == 0,
{
}

/// Run one full call: decode the state region, decode the instruction,
/// apply the transition, and overwrite the first 4 bytes of the region
/// with the new state. All-or-nothing: on any decode failure the region
/// is left untouched and the error says what went wrong.
pub fn process(state_region: &mut Vec<u8>, instruction_data: &[u8]) -> (result: Result<
    (),
    DecodeError,
>)
    ensures
        final(state_region)@.len() == old(state_region)@.len(),
        result is Err ==> final(state_region)@ == old(state_region)@,
        old(state_region)@.len() < 4 ==> result == Err::<(), DecodeError>(
            DecodeError::TruncatedState,
        ),
        old(state_region)@.len() >= 4 && spec_unpack(instruction_data@) is Err ==> result == Err::<
            (),
            DecodeError,
        >(spec_unpack(instruction_data@)->Err_0),
        old(state_region)@.len() >= 4 && spec_unpack(instruction_data@) is Ok ==> {
            &&& result is Ok
            &&& final(state_region)@ == spec_encode_state(
                spec_apply(
                    spec_decode_state(old(state_region)@)->Ok_0,
                    spec_unpack(instruction_data@)->Ok_0,
                ),
            ) + old(state_region)@.skip(4)
        },
{
    let state = match decode_state(state_region.as_slice()) {
        Ok(state) => state,
        Err(e) => {
            return Err(e);
        },
    };
    let instruction = match CounterInstructions::unpack(instruction_data) {
        Ok(instruction) => instruction,
        Err(e) => {
            return Err(e);
        },
    };
    let new_state = apply(state, instruction);
    let encoded = encode_state(&new_state);
    state_region[0] = encoded[0];
    state_region[1] = encoded[1];
    state_region[2] = encoded[2];
    state_region[3] = encoded[3];
    proof {
        assert(state_region@ =~= encoded@ + old(state_region)@.skip(4));
    }
    Ok(())
}

} // verus!
