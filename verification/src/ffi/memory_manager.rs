//! The host's allocator, as the bridge sees it.

use vstd::prelude::*;

verus! {

/// The handle through which the bridge asks the host for memory that the host will
/// later free. An answer is the address of the buffer, or `None` where the host gave none.
///
/// Nothing is taken for granted of an answer: the bridge tests each one before it
/// stores an address, and says in its contracts which request an answer belongs to.
pub trait MemoryManager {
    /// Asks for a buffer of `len` UTF-16 code units.
    fn alloc_str(&self, len: usize) -> Option<usize>;

    /// Asks for a buffer of `len` bytes.
    fn alloc_blob(&self, len: usize) -> Option<usize>;
}

} // verus!
