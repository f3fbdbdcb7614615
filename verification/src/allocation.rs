//! Allocation of memory pages to programs.
use vstd::prelude::*;

use crate::ids::{PageNumber, ProgramId};
use crate::memory::{grown, pages_fit, LinearMemory, MemoryError, BASIC_PAGE_SIZE};
use crate::storage::AllocationStorage;

verus! {

/// Whether none of the `count` pages from `start` on has an owner.
pub open spec fn block_free(owners: Map<PageNumber, ProgramId>, start: int, count: int) -> bool {
    forall|page: PageNumber|
        start <= page.raw < start + count ==> !(#[trigger] owners.contains_key(page))
}

/// Whether `count` free pages from `start` on lie between the static pages
/// and the end of the memory that programs may use.
pub open spec fn block_fits(
    owners: Map<PageNumber, ProgramId>,
    static_pages: PageNumber,
    max_pages: PageNumber,
    count: int,
    start: int,
) -> bool {
    &&& static_pages.raw <= start
    &&& start + count <= max_pages.raw
    &&& block_free(owners, start, count)
}

/// Whether `start` is the lowest page at which `count` pages fit.
pub open spec fn first_fit(
    owners: Map<PageNumber, ProgramId>,
    static_pages: PageNumber,
    max_pages: PageNumber,
    count: int,
    start: int,
) -> bool {
    &&& block_fits(owners, static_pages, max_pages, count, start)
    &&& forall|lower: int|
        lower < start ==> !(#[trigger] block_fits(owners, static_pages, max_pages, count, lower))
}

/// `owners` with `program_id` as the owner of the `count` pages from `start` on.
pub open spec fn with_block(
    owners: Map<PageNumber, ProgramId>,
    start: int,
    count: int,
    program_id: ProgramId,
) -> Map<PageNumber, ProgramId> {
    Map::new(
        |page: PageNumber| start <= page.raw < start + count || owners.contains_key(page),
        |page: PageNumber|
            if start <= page.raw < start + count {
                program_id
            } else {
                owners[page]
            },
    )
}

/// The owners of pages.
pub struct Allocations<AS> {
    storage: AS,
}

impl<AS: AllocationStorage> Allocations<AS> {
    /// The owner of each allocated page.
    pub closed spec fn owners(&self) -> Map<PageNumber, ProgramId> {
        self.storage.owners()
    }

    /// The record that the owners are kept in.
    pub closed spec fn record(&self) -> AS {
        self.storage
    }

    /// The record that the owners are kept in is in good order.
    pub closed spec fn wf(&self) -> bool {
        self.storage.wf()
    }

    /// Owners as recorded in `storage`.
    pub fn new(storage: AS) -> (allocations: Allocations<AS>)
        requires
            storage.wf(),
        ensures
            allocations.wf(),
            allocations.owners() == storage.owners(),
            allocations.record() == storage,
    {
        Allocations { storage }
    }

    /// The owner of `page`, if it is allocated.
    pub fn get(&self, page: PageNumber) -> (owner: Option<ProgramId>)
        requires
            self.wf(),
        ensures
            owner == self.owners().get(page),
    {
        self.storage.get(page)
    }

    /// Whether `page` is allocated.
    pub fn occupied(&self, page: PageNumber) -> (occupied: bool)
        requires
            self.wf(),
        ensures
            occupied == self.owners().contains_key(page),
    {
        match self.storage.get(page) {
            Some(_) => true,
            None => false,
        }
    }

    /// Makes `program_id` the owner of `page`.
    pub fn insert(&mut self, program_id: ProgramId, page: PageNumber)
        requires
            old(self).wf(),
        ensures
            final(self).wf(),
            final(self).owners() == old(self).owners().insert(page, program_id),
    {
        self.storage.set(page, program_id);
    }

    /// Takes `page` away from its owner, if that is `program_id`.
    pub fn remove(&mut self, program_id: ProgramId, page: PageNumber) -> (result: Result<
        (),
        MemoryError,
    >)
        requires
            old(self).wf(),
        ensures
            final(self).wf(),
            match result {
                Ok(()) => {
                    &&& old(self).owners().get(page) == Some(program_id)
                    &&& final(self).owners() == old(self).owners().remove(page)
                },
                Err(e) => {
                    &&& e == MemoryError::InvalidFree
                    &&& old(self).owners().get(page) != Some(program_id)
                    &&& final(self).owners() == old(self).owners()
                },
            },
    {
        let owned = match self.storage.get(page) {
            Some(owner) => owner == program_id,
            None => false,
        };
        if owned {
            self.storage.remove(page);
            Ok(())
        } else {
            Err(MemoryError::InvalidFree)
        }
    }

    /// The record that the owners are kept in.
    pub fn drain(self) -> (storage: AS)
        requires
            self.wf(),
        ensures
            storage.wf(),
            storage == self.record(),
            storage.owners() == self.owners(),
    {
        self.storage
    }
}

/// The memory and its allocations as one program may use them.
pub struct MemoryContext<AS> {
    pub program_id: ProgramId,
    pub memory: LinearMemory,
    pub allocations: Allocations<AS>,
    pub static_pages: PageNumber,
    pub max_pages: PageNumber,
}

impl<AS: AllocationStorage> MemoryContext<AS> {
    /// Memory and allocations are in good order.
    pub open spec fn wf(&self) -> bool {
        &&& self.memory.wf()
        &&& self.allocations.wf()
    }

    /// The lowest page at which `count` free pages fit.
    fn find_block(&self, count: u32) -> (found: Option<u32>)
        requires
            self.wf(),
            count > 0,
        ensures
            match found {
                Some(start) => first_fit(
                    self.allocations.owners(),
                    self.static_pages,
                    self.max_pages,
                    count as int,
                    start as int,
                ),
                None => forall|start: int| !(#[trigger] block_fits(
                    self.allocations.owners(),
                    self.static_pages,
                    self.max_pages,
                    count as int,
                    start,
                )),
            },
    {
        let ghost owners = self.allocations.owners();
        let ghost low = self.static_pages;
        let ghost high = self.max_pages;
        let mut candidate: u32 = self.static_pages.raw;
        let mut found: u32 = 0;
        while found < count
            invariant
                self.wf(),
                owners == self.allocations.owners(),
                low == self.static_pages,
                high == self.max_pages,
                found <= count,
                count > 0,
                low.raw <= candidate,
                found > 0 ==> candidate + count <= high.raw,
                block_free(owners, candidate as int, found as int),
                forall|lower: int|
                    lower < candidate ==> !(#[trigger] block_fits(
                        owners,
                        low,
                        high,
                        count as int,
                        lower,
                    )),
            decreases u32::MAX - candidate, count - found,
        {
            if candidate > self.max_pages.raw || count > self.max_pages.raw - candidate {
                return None;
            }
            let page = PageNumber { raw: candidate + found };
            if self.allocations.occupied(page) {
                assert(!block_fits(owners, low, high, count as int, candidate as int)) by {
                    assert(candidate <= page.raw < candidate + count);
                }
                candidate = candidate + 1;
                found = 0;
            } else {
                assert(block_free(owners, candidate as int, found + 1)) by {
                    assert forall|p: PageNumber|
                        candidate <= p.raw < candidate + found + 1 implies !(
                    #[trigger] owners.contains_key(p)) by {
                        if p.raw == candidate + found {
                            assert(p == page);
                        }
                    }
                }
                found = found + 1;
            }
        }
        Some(candidate)
    }

    /// Allocates the lowest block of `pages` free pages to the program, and
    /// makes the memory long enough for it.
    ///
    /// No pages at all are found at the end of the static pages.
    pub fn alloc_pages(&mut self, pages: PageNumber) -> (result: Result<PageNumber, MemoryError>)
        requires
            old(self).wf(),
        ensures
            final(self).wf(),
            final(self).program_id == old(self).program_id,
            final(self).static_pages == old(self).static_pages,
            final(self).max_pages == old(self).max_pages,
            alloc_outcome(
                old(self).memory@,
                old(self).allocations.owners(),
                old(self).program_id,
                old(self).static_pages,
                old(self).max_pages,
                pages,
                match result {
                    Ok(start) => Some(start),
                    Err(_) => None,
                },
                final(self).memory@,
                final(self).allocations.owners(),
            ),
            result matches Err(e) ==> e == MemoryError::OutOfMemory,
    {
        let count: u32 = pages.raw;
        if count == 0 {
            return Ok(self.static_pages);
        }
        let ghost before = self.allocations.owners();
        let start: u32 = match self.find_block(count) {
            Some(start) => start,
            None => {
                return Err(MemoryError::OutOfMemory);
            },
        };
        match self.memory.grow_to(start + count) {
            Ok(()) => {},
            Err(e) => {
                return Err(e);
            },
        }
        let ghost memory = self.memory@;
        let mut i: u32 = 0;
        assert(with_block(before, start as int, 0, self.program_id) =~= before);
        while i < count
            invariant
                i <= count,
                start + count <= u32::MAX,
                self.wf(),
                self.memory@ == memory,
                self.program_id == old(self).program_id,
                self.static_pages == old(self).static_pages,
                self.max_pages == old(self).max_pages,
                self.allocations.owners() == with_block(
                    before,
                    start as int,
                    i as int,
                    self.program_id,
                ),
            decreases count - i,
        {
            let page = PageNumber { raw: start + i };
            self.allocations.insert(self.program_id, page);
            assert(with_block(before, start as int, i + 1, self.program_id) =~= with_block(
                before,
                start as int,
                i as int,
                self.program_id,
            ).insert(page, self.program_id));
            i = i + 1;
        }
        Ok(PageNumber { raw: start })
    }

    /// Frees a page of the program.
    pub fn free(&mut self, page: PageNumber) -> (result: Result<(), MemoryError>)
        requires
            old(self).wf(),
        ensures
            final(self).wf(),
            final(self).memory == old(self).memory,
            final(self).program_id == old(self).program_id,
            final(self).static_pages == old(self).static_pages,
            final(self).max_pages == old(self).max_pages,
            match result {
                Ok(()) => {
                    &&& may_free(
                        old(self).allocations.owners(),
                        old(self).program_id,
                        old(self).static_pages,
                        old(self).max_pages,
                        page,
                    )
                    &&& final(self).allocations.owners() == old(self).allocations.owners().remove(
                        page,
                    )
                },
                Err(e) => {
                    &&& e == MemoryError::InvalidFree
                    &&& !may_free(
                        old(self).allocations.owners(),
                        old(self).program_id,
                        old(self).static_pages,
                        old(self).max_pages,
                        page,
                    )
                    &&& final(self).allocations.owners() == old(self).allocations.owners()
                },
            },
    {
        if page.raw < self.static_pages.raw || page.raw > self.max_pages.raw {
            return Err(MemoryError::InvalidFree);
        }
        self.allocations.remove(self.program_id, page)
    }
}

/// Whether a program may free `page`: it owns the page, and the number of the
/// page is between the number of static pages and the number of pages that
/// programs may use, both included. The latter page is one that no request for
/// pages is granted, so it has an owner only if it was recorded with one.
pub open spec fn may_free(
    owners: Map<PageNumber, ProgramId>,
    program_id: ProgramId,
    static_pages: PageNumber,
    max_pages: PageNumber,
    page: PageNumber,
) -> bool {
    &&& static_pages.raw <= page.raw <= max_pages.raw
    &&& owners.get(page) == Some(program_id)
}

/// Whether the memory can hold the block of `count` pages from `start` on.
pub open spec fn block_reachable(memory: Seq<u8>, start: int, count: int) -> bool {
    (start + count) * BASIC_PAGE_SIZE <= memory.len() || pages_fit(start + count)
}

/// What a request for `pages` pages leads to: `start` is where the pages were
/// found, `memory_after` and `owners_after` are what is left behind.
pub open spec fn alloc_outcome(
    memory: Seq<u8>,
    owners: Map<PageNumber, ProgramId>,
    program_id: ProgramId,
    static_pages: PageNumber,
    max_pages: PageNumber,
    pages: PageNumber,
    start: Option<PageNumber>,
    memory_after: Seq<u8>,
    owners_after: Map<PageNumber, ProgramId>,
) -> bool {
    let count = pages.raw as int;
    match start {
        Some(s) => if count == 0 {
            &&& s == static_pages
            &&& memory_after == memory
            &&& owners_after == owners
        } else {
            &&& first_fit(owners, static_pages, max_pages, count, s.raw as int)
            &&& block_reachable(memory, s.raw as int, count)
            &&& memory_after == grown(memory, s.raw + count)
            &&& owners_after == with_block(owners, s.raw as int, count, program_id)
        },
        None => {
            &&& count > 0
            &&& forall|q: int|
                #[trigger] first_fit(owners, static_pages, max_pages, count, q)
                    ==> !block_reachable(memory, q, count)
            &&& memory_after == memory
            &&& owners_after == owners
        },
    }
}

} // verus!
