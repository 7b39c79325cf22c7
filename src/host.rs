//! The state shared between host and guest, and the host functions that move
//! buffers across the boundary.
use vstd::prelude::*;
use crate::memory::{read_vec, write_vec, range_in, spliced, Fault};

verus! {

/// The value that persists across invocations: a byte buffer that only the
/// host functions read and replace.
#[derive(Clone, Debug)]
pub struct SharedState {
    pub val: Vec<u8>,
}

/// The scalar variant of the shared state: one integer exchanged by value.
#[derive(Clone, Copy, Debug, PartialEq, Eq, Structural)]
pub struct ScalarState {
    pub val: u32,
}

/// `set_state`: the guest replaces the scalar state with `v`.
pub fn set_state(state: &mut ScalarState, v: u32)
    ensures
        final(state).val == v,
{
    state.val = v;
}

/// `get_state`: the guest reads the scalar state.
pub fn get_state(state: &ScalarState) -> (r: u32)
    ensures
        r == state.val,
{
    state.val
}

/// Deposit can succeed: the guest's range lies inside its memory.
pub open spec fn deposit_ok(mem: Seq<u8>, ptr: u32, size: u32) -> bool {
    range_in(mem.len(), ptr, size as nat)
}

/// Deliver can succeed: the buffer fits the granted capacity and the memory.
pub open spec fn deliver_ok(buf: Seq<u8>, mem_len: nat, ptr: u32, max_size: u32) -> bool {
    buf.len() <= max_size && range_in(mem_len, ptr, buf.len())
}

/// Deposit (`set_vec`): replaces the shared buffer with the `size` bytes that
/// the guest placed at `ptr`. The state is left alone on a fault.
pub fn set_vec(state: &mut SharedState, memory: &[u8], ptr: u32, size: u32) -> (r: Result<(), Fault>)
    ensures
        r is Ok <==> deposit_ok(memory@, ptr, size),
        r is Ok ==> final(state).val@ == memory@.subrange(ptr as int, ptr + size),
        r matches Err(f) ==> f == Fault::OutOfBounds && final(state).val@ == old(state).val@,
{
    let v = read_vec(memory, ptr, size)?;
    state.val = v;
    Ok(())
}

/// Deliver (`get_vec`): writes the shared buffer into the guest's memory at
/// `ptr`, where the guest granted `max_size` bytes, and returns its length.
/// Guest memory is left alone on a fault.
pub fn get_vec(state: &SharedState, memory: &mut [u8], ptr: u32, max_size: u32) -> (r: Result<u32, Fault>)
    ensures
        r is Ok <==> deliver_ok(state.val@, old(memory)@.len(), ptr, max_size),
        r == Err::<u32, Fault>(Fault::CapacityExceeded) <==> state.val@.len() > max_size,
        r matches Ok(n) ==> n == state.val@.len() && final(memory)@ == spliced(
            old(memory)@,
            ptr as int,
            state.val@,
        ),
        r is Err ==> final(memory)@ == old(memory)@,
{
    write_vec(memory, ptr, state.val.as_slice(), max_size)
}

} // verus!
