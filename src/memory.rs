//! Bounds-checked access to a snapshot of guest linear memory.
use vstd::prelude::*;

verus! {

/// Why a guest request was refused. Every fault aborts the invocation.
#[derive(Debug, Clone, Copy, PartialEq, Eq, Structural)]
pub enum Fault {
    /// The requested range lies partly or fully outside the current memory.
    OutOfBounds,
    /// The buffer to deliver is longer than the capacity the guest granted.
    CapacityExceeded,
}

/// The range `[ptr, ptr + size)` lies inside a memory of `len` bytes.
pub open spec fn range_in(len: nat, ptr: u32, size: nat) -> bool {
    ptr as nat + size <= len
}

/// `mem` with the bytes from `ptr` on replaced by `data`.
pub open spec fn spliced(mem: Seq<u8>, ptr: int, data: Seq<u8>) -> Seq<u8> {
    mem.subrange(0, ptr) + data + mem.subrange(ptr + data.len(), mem.len() as int)
}

/// Copies `size` bytes at `ptr` out of `memory` into a fresh buffer.
pub fn read_vec(memory: &[u8], ptr: u32, size: u32) -> (r: Result<Vec<u8>, Fault>)
    ensures
        r is Ok <==> range_in(memory@.len(), ptr, size as nat),
        r matches Ok(v) ==> v@ == memory@.subrange(ptr as int, ptr + size),
        r matches Err(f) ==> f == Fault::OutOfBounds,
{
    let start = ptr as usize;
    let len: usize = memory.len();
    let n = size as usize;
    if start > memory.len() || n > memory.len() - start {
        return Err(Fault::OutOfBounds);
    }
    let mut out: Vec<u8> = Vec::with_capacity(n);
    let mut i: usize = 0;
    while i < n
        invariant
            i <= n,
            start + n <= memory@.len(),
            memory@.len() == len,
            out@ == memory@.subrange(start as int, start + i),
        decreases n - i,
    {
        out.push(memory[start + i]);
        i = i + 1;
        assert(out@ =~= memory@.subrange(start as int, start + i));
    }
    Ok(out)
}

/// Copies `data` into `memory` at `ptr`, provided the guest granted at least
/// `max_size` bytes there and the range lies inside the memory. Nothing is
/// written on failure; on success the number of bytes written is returned.
pub fn write_vec(memory: &mut [u8], ptr: u32, data: &[u8], max_size: u32) -> (r: Result<u32, Fault>)
    ensures
        r is Ok <==> data@.len() <= max_size && range_in(old(memory)@.len(), ptr, data@.len()),
        r == Err::<u32, Fault>(Fault::CapacityExceeded) <==> data@.len() > max_size,
        r == Err::<u32, Fault>(Fault::OutOfBounds) <==> data@.len() <= max_size
            && !range_in(old(memory)@.len(), ptr, data@.len()),
        r matches Ok(n) ==> n == data@.len() && final(memory)@ == spliced(
            old(memory)@,
            ptr as int,
            data@,
        ),
        r is Err ==> final(memory)@ == old(memory)@,
{
    if data.len() > max_size as usize {
        return Err(Fault::CapacityExceeded);
    }
    let start = ptr as usize;
    let len: usize = memory.len();
    let n = data.len();
    if start > memory.len() || n > memory.len() - start {
        return Err(Fault::OutOfBounds);
    }
    let mut i: usize = 0;
    while i < n
        invariant
            i <= n,
            n == data@.len(),
            start + n <= memory@.len(),
            memory@.len() == len,
            memory@.len() == old(memory)@.len(),
            memory@.subrange(0, start as int) == old(memory)@.subrange(0, start as int),
            memory@.subrange(start as int, start + i) == data@.subrange(0, i as int),
            memory@.subrange(start + n, memory@.len() as int) == old(memory)@.subrange(
                start + n,
                old(memory)@.len() as int,
            ),
        decreases n - i,
    {
        let ghost before = memory@;
        memory[start + i] = data[i];
        assert(memory@.subrange(0, start as int) =~= before.subrange(0, start as int));
        assert(memory@.subrange(start as int, start + i + 1) =~= data@.subrange(0, i + 1));
        assert(memory@.subrange(start + n, memory@.len() as int) =~= before.subrange(
            start + n,
            before.len() as int,
        ));
        i = i + 1;
    }
    assert(memory@ =~= spliced(old(memory)@, ptr as int, data@)) by {
        assert(data@.subrange(0, n as int) =~= data@);
        let m = memory@;
        assert(m =~= m.subrange(0, start as int) + m.subrange(start as int, start + n)
            + m.subrange(start + n, m.len() as int));
    }
    Ok(n as u32)
}

} // verus!
