//! Properties of the buffer protocol that hold across calls.
use vstd::prelude::*;
use crate::memory::{range_in, spliced};
use crate::host::{deliver_ok, deposit_ok};

verus! {

/// A buffer deposited from one guest memory and then delivered into another
/// (or the same) memory, with a capacity at least its length and a range that
/// fits, is delivered byte for byte as it was deposited.
pub proof fn lemma_round_trip(
    mem_in: Seq<u8>,
    ptr_in: u32,
    size: u32,
    mem_out: Seq<u8>,
    ptr_out: u32,
    max_size: u32,
)
    requires
        deposit_ok(mem_in, ptr_in, size),
        size <= max_size,
        range_in(mem_out.len(), ptr_out, size as nat),
    ensures
        ({
            let buf = mem_in.subrange(ptr_in as int, ptr_in + size);
            &&& deliver_ok(buf, mem_out.len(), ptr_out, max_size)
            &&& spliced(mem_out, ptr_out as int, buf).subrange(ptr_out as int, ptr_out + size) == buf
        }),
{
    let buf = mem_in.subrange(ptr_in as int, ptr_in + size);
    let out = spliced(mem_out, ptr_out as int, buf);
    assert(out.subrange(ptr_out as int, ptr_out + size) =~= buf);
}

/// Deliver with a capacity one byte short of the shared buffer is refused,
/// wherever the guest points and however large its memory is.
pub proof fn lemma_short_capacity_rejected(buf: Seq<u8>, mem_len: nat, ptr: u32)
    requires
        1 <= buf.len() <= u32::MAX + 1,
    ensures
        !deliver_ok(buf, mem_len, ptr, (buf.len() - 1) as u32),
{
}

/// Growing guest memory keeps every request that was valid before valid,
/// and a deposit still reads the same bytes.
pub proof fn lemma_growth_keeps_access(
    before: Seq<u8>,
    after: Seq<u8>,
    ptr: u32,
    size: u32,
    buf: Seq<u8>,
    max_size: u32,
)
    requires
        before.len() <= after.len(),
        after.subrange(0, before.len() as int) == before,
    ensures
        deposit_ok(before, ptr, size) ==> deposit_ok(after, ptr, size) && after.subrange(
            ptr as int,
            ptr + size,
        ) == before.subrange(ptr as int, ptr + size),
        deliver_ok(buf, before.len(), ptr, max_size) ==> deliver_ok(buf, after.len(), ptr, max_size),
{
    if deposit_ok(before, ptr, size) {
        assert forall|i: int| 0 <= i < ptr + size implies #[trigger] after[i] == before[i] by {
            assert(after.subrange(0, before.len() as int)[i] == after[i]);
        }
        assert(after.subrange(ptr as int, ptr + size) =~= before.subrange(ptr as int, ptr + size));
    }
}

} // verus!
