//! The linear memory that programs share.
use vstd::prelude::*;
use vstd::slice::{slice_subrange, slice_to_vec};

use crate::ids::PageNumber;

verus! {

/// Number of bytes in a memory page.
pub const BASIC_PAGE_SIZE: usize = 65536;

/// Largest number of pages that a 32-bit linear memory can have.
pub const MAX_MEMORY_PAGES: u32 = 65536;

/// Why a memory operation was refused.
#[derive(Clone, Copy, Debug, PartialEq, Eq, Structural)]
pub enum MemoryError {
    /// A write past the end of the memory.
    OutOfBounds,
    /// No room for the requested pages.
    OutOfMemory,
    /// The page is not one that the program may free.
    InvalidFree,
}

/// Whether a memory of `pages` pages can exist.
pub open spec fn pages_fit(pages: int) -> bool {
    0 <= pages <= MAX_MEMORY_PAGES && pages * BASIC_PAGE_SIZE <= usize::MAX
}

/// `size` bytes, all zero.
pub open spec fn zeros(size: nat) -> Seq<u8> {
    Seq::new(size, |i: int| 0u8)
}

/// `memory` with `data` written at `offset`.
pub open spec fn overwritten(memory: Seq<u8>, offset: int, data: Seq<u8>) -> Seq<u8> {
    memory.take(offset) + data + memory.skip(offset + data.len())
}

/// `memory` grown to `pages` pages; it never shrinks.
pub open spec fn grown(memory: Seq<u8>, pages: int) -> Seq<u8> {
    if memory.len() < pages * BASIC_PAGE_SIZE {
        memory + zeros((pages * BASIC_PAGE_SIZE - memory.len()) as nat)
    } else {
        memory
    }
}

/// A byte-addressed memory made of whole pages.
#[derive(Debug)]
pub struct LinearMemory {
    bytes: Vec<u8>,
}

impl View for LinearMemory {
    type V = Seq<u8>;

    closed spec fn view(&self) -> Seq<u8> {
        self.bytes@
    }
}

impl LinearMemory {
    /// The memory consists of whole pages, not more than can exist.
    pub open spec fn wf(&self) -> bool {
        &&& self@.len() == self.pages() * BASIC_PAGE_SIZE
        &&& pages_fit(self.pages())
    }

    /// Number of pages of the memory.
    pub open spec fn pages(&self) -> int {
        self@.len() as int / BASIC_PAGE_SIZE as int
    }

    /// A memory of `pages` pages, filled with zeros.
    pub fn new(pages: u32) -> (memory: LinearMemory)
        requires
            pages_fit(pages as int),
        ensures
            memory.wf(),
            memory.pages() == pages,
            memory@ == zeros((pages * BASIC_PAGE_SIZE) as nat),
    {
        let bytes: Vec<u8> = vec![0u8; pages as usize * BASIC_PAGE_SIZE];
        assert(bytes@ =~= zeros((pages * BASIC_PAGE_SIZE) as nat));
        LinearMemory { bytes }
    }

    /// Number of bytes in the memory.
    pub fn data_size(&self) -> (size: usize)
        ensures
            size == self@.len(),
    {
        self.bytes.len()
    }

    /// Number of pages in the memory.
    pub fn size(&self) -> (pages: PageNumber)
        requires
            self.wf(),
        ensures
            pages.raw == self.pages(),
    {
        PageNumber { raw: (self.bytes.len() / BASIC_PAGE_SIZE) as u32 }
    }

    /// The `len` bytes from `offset` on.
    pub fn read(&self, offset: usize, len: usize) -> (data: Vec<u8>)
        requires
            offset + len <= self@.len(),
        ensures
            data@ == self@.subrange(offset as int, offset + len),
    {
        assert(offset + len <= self.bytes.len());
        slice_to_vec(slice_subrange(self.bytes.as_slice(), offset, offset + len))
    }

    /// Writes `data` at `offset`, if all of it lies inside the memory.
    pub fn write(&mut self, offset: usize, data: &[u8]) -> (result: Result<(), MemoryError>)
        ensures
            match result {
                Ok(()) => {
                    &&& offset + data@.len() <= old(self)@.len()
                    &&& final(self)@ == overwritten(old(self)@, offset as int, data@)
                },
                Err(e) => {
                    &&& e == MemoryError::OutOfBounds
                    &&& offset + data@.len() > old(self)@.len()
                    &&& final(self)@ == old(self)@
                },
            },
            final(self)@.len() == old(self)@.len(),
    {
        if offset > self.bytes.len() || data.len() > self.bytes.len() - offset {
            return Err(MemoryError::OutOfBounds);
        }
        let ghost before = self.bytes@;
        let mut i: usize = 0;
        while i < data.len()
            invariant
                i <= data@.len(),
                offset + data@.len() <= before.len(),
                before.len() <= usize::MAX,
                self.bytes@ =~= overwritten(before, offset as int, data@.take(i as int)),
            decreases data@.len() - i,
        {
            self.bytes[offset + i] = data[i];
            i = i + 1;
        }
        assert(data@.take(data@.len() as int) =~= data@);
        Ok(())
    }

    /// Makes the memory at least `pages` pages long, if it can be.
    pub fn grow_to(&mut self, pages: u32) -> (result: Result<(), MemoryError>)
        requires
            old(self).wf(),
        ensures
            final(self).wf(),
            match result {
                Ok(()) => {
                    &&& pages <= old(self).pages() || pages_fit(pages as int)
                    &&& final(self)@ == grown(old(self)@, pages as int)
                },
                Err(e) => {
                    &&& e == MemoryError::OutOfMemory
                    &&& pages > old(self).pages()
                    &&& !pages_fit(pages as int)
                    &&& final(self)@ == old(self)@
                },
            },
    {
        if pages <= self.size().raw() {
            return Ok(());
        }
        if pages > MAX_MEMORY_PAGES || pages as usize > usize::MAX / BASIC_PAGE_SIZE {
            return Err(MemoryError::OutOfMemory);
        }
        let ghost before = self.bytes@;
        self.bytes.resize(pages as usize * BASIC_PAGE_SIZE, 0u8);
        proof {
            assert(self.bytes@.take(before.len() as int) =~= before);
            assert forall|i: int| 0 <= i < before.len() implies self.bytes@[i] == before[i] by {
                assert(self.bytes@.take(before.len() as int)[i] == before[i]);
            }
            assert(self.bytes@ =~= grown(before, pages as int));
        }
        Ok(())
    }
}

} // verus!
