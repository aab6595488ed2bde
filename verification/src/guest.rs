//! Guest memory. Every pointer the guest hands over is treated as hostile: a
//! range that is not wholly inside the memory is refused.

use vstd::prelude::*;
use vstd::slice::*;

verus! {

/// Whether a range lies inside a memory of the given size.
pub open spec fn in_bounds(size: nat, ptr: u32, len: nat) -> bool {
    ptr + len <= size
}

/// The bytes of a range.
pub open spec fn range(memory: Seq<u8>, ptr: u32, len: nat) -> Seq<u8> {
    memory.subrange(ptr as int, ptr + len)
}

/// The memory after bytes were written at `ptr`.
pub open spec fn written(memory: Seq<u8>, ptr: u32, bytes: Seq<u8>) -> Seq<u8> {
    memory.take(ptr as int) + bytes + memory.skip(ptr + bytes.len())
}

/// What a guest's memory gives for a range. A guest may have no memory.
pub open spec fn read(memory: Option<Seq<u8>>, ptr: u32, len: u32) -> Option<Seq<u8>> {
    match memory {
        Some(memory) if in_bounds(memory.len(), ptr, len as nat) => {
            Some(range(memory, ptr, len as nat))
        },
        _ => None,
    }
}

/// What a slice of memory holds.
pub open spec fn memory_view(memory: Option<&[u8]>) -> Option<Seq<u8>> {
    match memory {
        Some(memory) => Some(memory@),
        None => None,
    }
}

/// Copy `len` bytes out of guest memory, refusing any range that is not wholly
/// inside it.
pub fn read_guest(memory: Option<&[u8]>, ptr: u32, len: u32) -> (bytes: Option<Vec<u8>>)
    ensures
        match bytes {
            Some(bytes) => read(memory_view(memory), ptr, len) == Some(bytes@),
            None => read(memory_view(memory), ptr, len) is None,
        },
{
    let data = match memory {
        Some(data) => data,
        None => {
            return None;
        },
    };
    let start: usize = ptr as usize;
    let count: usize = len as usize;
    if start > data.len() || count > data.len() - start {
        return None;
    }
    let part = slice_subrange(data, start, start + count);
    let bytes = slice_to_vec(part);
    Some(bytes)
}

/// Copy bytes into guest memory, unless they would reach beyond it.
pub fn write_guest(memory: Option<&mut [u8]>, ptr: u32, bytes: &[u8]) -> (done: bool)
    ensures
        match memory {
            Some(data) => {
                &&& done == in_bounds((*data)@.len(), ptr, bytes@.len())
                &&& final(data)@ == (if done {
                    written((*data)@, ptr, bytes@)
                } else {
                    (*data)@
                })
            },
            None => !done,
        },
{
    match memory {
        Some(data) => {
            let start: usize = ptr as usize;
            let size: usize = data.len();
            if start > size || bytes.len() > size - start {
                return false;
            }
            let ghost before = data@;
            let mut i: usize = 0;
            while i < bytes.len()
                invariant
                    i <= bytes.len(),
                    start + bytes@.len() <= size,
                    data@.len() == size,
                    before.len() == size,
                    forall|k: int|
                        0 <= k < size ==> #[trigger] data@[k] == (if start <= k < start + i {
                            bytes@[k - start]
                        } else {
                            before[k]
                        }),
                decreases bytes.len() - i,
            {
                data[start + i] = bytes[i];
                i = i + 1;
            }
            assert(data@ =~= written(before, ptr, bytes@));
            true
        },
        None => false,
    }
}

/// What was written comes back when the same range is read.
pub proof fn law_read_gives_back_what_was_written(memory: Seq<u8>, ptr: u32, bytes: Seq<u8>)
    requires
        in_bounds(memory.len(), ptr, bytes.len()),
        bytes.len() <= u32::MAX,
    ensures
        read(Some(written(memory, ptr, bytes)), ptr, bytes.len() as u32) == Some(bytes),
{
    assert(range(written(memory, ptr, bytes), ptr, bytes.len()) =~= bytes);
}

/// A write leaves the size of the memory and every byte outside the range alone.
pub proof fn law_write_is_confined(memory: Seq<u8>, ptr: u32, bytes: Seq<u8>)
    requires
        in_bounds(memory.len(), ptr, bytes.len()),
    ensures
        written(memory, ptr, bytes).len() == memory.len(),
        forall|i: int|
            0 <= i < memory.len() && !(ptr <= i < ptr + bytes.len()) ==> #[trigger] written(
                memory,
                ptr,
                bytes,
            )[i] == memory[i],
{
}

} // verus!
