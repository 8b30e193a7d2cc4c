use vstd::prelude::*;

verus! {

/// Granularity of memory pool storage, in bytes.
pub const PAGE_SIZE: usize = 0x1000;

/// Cache behaviour requested for a memory pool.
#[derive(Clone, Copy, Debug, PartialEq, Eq, Structural)]
pub struct PoolFlags {
    pub cpu_uncached: bool,
    pub gpu_cached: bool,
}

/// A half-open byte range `[start, end)` inside a memory pool.
#[derive(Clone, Copy, Debug, PartialEq, Eq, Structural)]
pub struct Region {
    pub start: usize,
    pub end: usize,
}

impl Region {
    pub open spec fn len(self) -> int {
        self.end - self.start
    }

    /// No byte lies in both ranges.
    pub open spec fn disjoint(self, other: Region) -> bool {
        self.end <= other.start || other.end <= self.start
    }

    pub fn size(&self) -> (r: usize)
        requires
            self.start <= self.end,
        ensures
            r == self.len(),
    {
        self.end - self.start
    }
}

/// Why a memory pool could not be created.
#[derive(Clone, Copy, Debug, PartialEq, Eq, Structural)]
pub enum PoolError {
    /// A pool must hold at least one page.
    Empty,
    /// Pool storage must be a whole number of pages.
    Unaligned,
}

/// Storage registered with the device, handed out front to back in regions
/// that never overlap.
#[derive(Debug)]
pub struct MemPool {
    pub size: usize,
    pub flags: PoolFlags,
    /// Bytes `[0, reserved)` have been handed out.
    pub reserved: usize,
}

impl MemPool {
    pub open spec fn wf(&self) -> bool {
        &&& self.reserved <= self.size
        &&& self.size > 0
        &&& self.size % PAGE_SIZE == 0
    }

    /// Bytes still free for reservation.
    pub open spec fn free(&self) -> int {
        self.size - self.reserved
    }

    /// Creates an empty pool of `size` bytes.
    pub fn create(size: usize, flags: PoolFlags) -> (r: Result<MemPool, PoolError>)
        ensures
            size == 0 ==> r == Err::<MemPool, PoolError>(PoolError::Empty),
            size != 0 && size % PAGE_SIZE != 0 ==> r == Err::<MemPool, PoolError>(
                PoolError::Unaligned,
            ),
            size != 0 && size % PAGE_SIZE == 0 ==> (r matches Ok(p) && p.wf() && p.size == size
                && p.flags == flags && p.reserved == 0),
    {
        if size == 0 {
            Err(PoolError::Empty)
        } else if size % PAGE_SIZE != 0 {
            Err(PoolError::Unaligned)
        } else {
            Ok(MemPool { size, flags, reserved: 0 })
        }
    }

    /// Reserves the next `size` bytes, or `None` when fewer are left.
    pub fn reserve_region(&mut self, size: usize) -> (r: Option<Region>)
        requires
            old(self).wf(),
        ensures
            final(self).wf(),
            final(self).size == old(self).size,
            final(self).flags == old(self).flags,
            size <= old(self).free() ==> r == Some(
                Region { start: old(self).reserved, end: (old(self).reserved + size) as usize },
            ) && final(self).reserved == old(self).reserved + size,
            size > old(self).free() ==> r.is_none() && final(self).reserved == old(self).reserved,
    {
        if size <= self.size - self.reserved {
            let start = self.reserved;
            self.reserved = start + size;
            Some(Region { start, end: start + size })
        } else {
            None
        }
    }
}

/// Two reservations from one pool, one after the other, never overlap, and
/// both lie inside the pool.
pub proof fn reservations_are_disjoint(pool: MemPool, a: usize, b: usize)
    requires
        pool.wf(),
        a <= pool.free(),
        b <= pool.free() - a,
    ensures
        ({
            let first = Region { start: pool.reserved, end: (pool.reserved + a) as usize };
            let second = Region {
                start: (pool.reserved + a) as usize,
                end: (pool.reserved + a + b) as usize,
            };
            first.disjoint(second) && first.end <= pool.size && second.end <= pool.size
        }),
{
}

} // verus!
