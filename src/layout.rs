use vstd::prelude::*;

verus! {

/// The error returned when the storage for a requested number of elements
/// cannot be described: its byte size overflows `usize`, or exceeds the
/// largest signed offset, which no allocation may exceed.
#[derive(Debug, Clone, Copy, PartialEq, Eq)]
pub struct CapacityOverflow;

/// Byte size of the storage for `len` elements of `elem_size` bytes each.
pub open spec fn storage_bytes(len: nat, elem_size: nat) -> nat {
    len * elem_size
}

/// Whether storage for `len` elements of `elem_size` bytes each can be
/// requested: its byte size is at most the largest signed offset.
pub open spec fn fits(len: nat, elem_size: nat) -> bool {
    storage_bytes(len, elem_size) <= isize::MAX
}

/// Whether an allocation of `alloc_size` bytes stays within the largest
/// signed offset. The limit holds on every platform: no allocation may
/// exceed it, whatever the width of a pointer.
pub fn alloc_guard(alloc_size: usize) -> (r: bool)
    ensures
        r == (alloc_size <= isize::MAX),
{
    alloc_size <= isize::MAX as usize
}

/// The byte size of the storage for `len` elements of `elem_size` bytes,
/// or `None` when it cannot be requested.
pub fn checked_alloc_size(len: usize, elem_size: usize) -> (r: Option<usize>)
    ensures
        fits(len as nat, elem_size as nat) ==> r == Some(storage_bytes(len as nat, elem_size as nat) as usize),
        !fits(len as nat, elem_size as nat) ==> r is None,
{
    match len.checked_mul(elem_size) {
        Some(bytes) => {
            if alloc_guard(bytes) {
                Some(bytes)
            } else {
                None
            }
        },
        None => {
            proof {
                assert(len as nat * elem_size as nat > usize::MAX);
            }
            None
        },
    }
}

} // verus!
