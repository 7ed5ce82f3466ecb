//! Coherent DMA allocation policy: page rounding and the choice between
//! the page allocator and the byte allocator.
use vstd::prelude::*;

verus! {

pub const PAGE_SIZE_4K: usize = 0x1000;
/// Pages the byte allocator grows by when it runs out of memory.
pub const BYTE_POOL_EXPAND_PAGES: usize = 4;

/// 4 KiB pages covering `size` bytes.
pub fn layout_pages(size: usize) -> (pages: usize)
    requires
        size <= usize::MAX - (PAGE_SIZE_4K - 1),
    ensures
        pages as int == (size as int + PAGE_SIZE_4K as int - 1) / (PAGE_SIZE_4K as int),
        pages * PAGE_SIZE_4K >= size,
{
    (size + (PAGE_SIZE_4K - 1)) / PAGE_SIZE_4K
}

/// Whether a coherent allocation of `size` bytes is served in whole pages
/// (one page or more) rather than by the byte allocator.
pub fn coherent_uses_pages(size: usize) -> (r: bool)
    ensures
        r == (size >= PAGE_SIZE_4K),
{
    size >= PAGE_SIZE_4K
}

/// Pages added to the byte allocator when it is exhausted: four, or fewer
/// when fewer are available.
pub fn byte_pool_expand_pages(available_pages: usize) -> (pages: usize)
    ensures
        pages == (if available_pages < BYTE_POOL_EXPAND_PAGES { available_pages } else { BYTE_POOL_EXPAND_PAGES }),
{
    if available_pages < BYTE_POOL_EXPAND_PAGES {
        available_pages
    } else {
        BYTE_POOL_EXPAND_PAGES
    }
}

/// Alignment of a page allocation for a request aligned to `align`: at
/// least a page.
pub fn page_alignment(align: usize) -> (a: usize)
    ensures
        a == (if align >= PAGE_SIZE_4K { align } else { PAGE_SIZE_4K }),
{
    if align >= PAGE_SIZE_4K {
        align
    } else {
        PAGE_SIZE_4K
    }
}


/// Allocation errors.
#[derive(Clone, Copy, Debug, PartialEq, Eq, Structural)]
pub enum AllocError {
    InvalidParam,
    MemoryOverlap,
    NoMemory,
    NotAllocated,
    NotInitialized,
    NotFound,
}

/// A coherent byte allocation that may grow the byte allocator once.
pub struct ByteAllocRetry {
    pub expanded: bool,
}

impl ByteAllocRetry {
    pub fn new() -> (r: ByteAllocRetry)
        ensures
            !r.expanded,
    {
        ByteAllocRetry { expanded: false }
    }

    /// After the byte allocator failed: the first failure grows it by up to
    /// four pages (as many as are available), returned as pages and bytes;
    /// a second failure is out of memory.
    pub fn on_failure(&mut self, available_pages: usize) -> (r: Result<(usize, usize), AllocError>)
        ensures
            old(self).expanded ==> r == Err::<(usize, usize), AllocError>(AllocError::NoMemory) && final(self).expanded,
            !old(self).expanded ==> final(self).expanded && ({
                let pages = if available_pages < BYTE_POOL_EXPAND_PAGES { available_pages } else { BYTE_POOL_EXPAND_PAGES };
                r == Ok::<(usize, usize), AllocError>((pages, (pages * PAGE_SIZE_4K) as usize))
            }),
    {
        if self.expanded {
            return Err(AllocError::NoMemory);
        }
        self.expanded = true;
        let pages = byte_pool_expand_pages(available_pages);
        Ok((pages, pages * PAGE_SIZE_4K))
    }
}

} // verus!
