//! Backing bytes for a loaded GGUF file: an OS file mapping or an owned
//! buffer.
//!
//! Mapping a file (done by the application layer, which opens the file)
//! lets the OS page weights in on demand. The bytes of a mapping are whatever
//! the file holds when they are read, so the contracts here only speak of
//! the contents of owned buffers.

use vstd::prelude::*;

verus! {

#[verifier::external_type_specification]
#[verifier::external_body]
pub struct ExMmap(memmap2::Mmap);

/// Owned or memory-mapped file bytes.
#[derive(Debug)]
pub enum WeightStorage {
    /// Read-only file mapping (preferred for real checkpoints).
    Mapped(memmap2::Mmap),
    /// Heap copy (tests and tiny fixtures).
    Owned(Vec<u8>),
}

/// The bytes of a read-only mapping, through `Deref for memmap2::Mmap`
/// (`slice::from_raw_parts` over the mapped region).
///
/// Trusted: the slice has at most `isize::MAX` bytes, as every Rust slice
/// does. What the bytes are is not stated: they are the mapped file's
/// contents at the time they are read.
#[verifier::external_body]
fn mapped_bytes(map: &memmap2::Mmap) -> (res: &[u8])
    ensures
        res@.len() <= isize::MAX,
{
    map
}

impl WeightStorage {
    /// Wrap an owned buffer (full GGUF file bytes).
    pub fn owned(bytes: Vec<u8>) -> (res: Self)
        ensures
            res == WeightStorage::Owned(bytes),
    {
        WeightStorage::Owned(bytes)
    }

    /// Borrow the full file bytes.
    pub fn as_slice(&self) -> (res: &[u8])
        ensures
            self matches WeightStorage::Owned(b) ==> res@ == b@,
            self is Mapped ==> res@.len() <= isize::MAX,
    {
        match self {
            WeightStorage::Mapped(map) => mapped_bytes(map),
            WeightStorage::Owned(bytes) => bytes.as_slice(),
        }
    }

    /// Byte length of the backing store.
    pub fn len(&self) -> (res: usize)
        ensures
            self matches WeightStorage::Owned(b) ==> res == b@.len(),
    {
        self.as_slice().len()
    }

    /// `true` when the store is empty.
    pub fn is_empty(&self) -> (res: bool)
        ensures
            self matches WeightStorage::Owned(b) ==> res == (b@.len() == 0),
    {
        self.len() == 0
    }

    /// `true` when this store is an OS file mapping.
    pub fn is_mapped(&self) -> (res: bool)
        ensures
            res == (self is Mapped),
    {
        match self {
            WeightStorage::Mapped(_) => true,
            WeightStorage::Owned(_) => false,
        }
    }
}

} // verus!
