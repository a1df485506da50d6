use vstd::prelude::*;

use crate::error::TX_SUCCESS;
use crate::pool::{pool_result, pool_status_result, PoolError};

verus! {

/// How far `addr` must move up to reach the next multiple of `align`.
pub open spec fn align_gap(addr: int, align: int) -> int {
    if addr % align == 0 {
        0
    } else {
        align - addr % align
    }
}

/// The process-wide allocator that serves dynamic allocation from a byte pool.
pub struct ThreadXAllocator {
    initialized: bool,
}

impl ThreadXAllocator {
    /// Whether the pool behind the allocator was set up.
    pub closed spec fn is_ready(&self) -> bool {
        self.initialized
    }

    /// An allocator whose pool is not yet set up.
    pub fn new() -> (r: ThreadXAllocator)
        ensures
            !r.is_ready(),
    {
        ThreadXAllocator { initialized: false }
    }

    /// Whether the pool was set up; allocating before that is fatal.
    pub fn is_initialized(&self) -> (r: bool)
        ensures
            r == self.is_ready(),
    {
        self.initialized
    }

    /// Records the kernel's answer to creating the pool over the heap region.
    /// A second set-up is refused with `AlreadyInitialized` and asks nothing
    /// of the kernel. The allocator is ready only once the kernel accepted
    /// the region, so allocating after a refused set-up stays fatal.
    pub fn initialize(&mut self, create_status: u32) -> (r: Result<(), PoolError>)
        ensures
            old(self).is_ready() ==> r == Err::<(), PoolError>(PoolError::AlreadyInitialized),
            !old(self).is_ready() ==> r == pool_status_result(create_status),
            final(self).is_ready() == (old(self).is_ready() || create_status == TX_SUCCESS),
    {
        if self.initialized {
            return Err(PoolError::AlreadyInitialized);
        }
        let r = pool_result(create_status);
        if r.is_ok() {
            self.initialized = true;
        }
        r
    }

    /// The bytes to take from the pool for a request of `size` bytes at
    /// `align`: room for the header that records the block's start, and
    /// enough that moving up to the next aligned address still leaves `size`
    /// bytes.
    pub fn request_size(&self, size: usize, align: usize) -> (r: usize)
        requires
            self.is_ready(),
            align > 0,
            size + align - 1 + HEADER_BYTES <= usize::MAX,
        ensures
            r == size + align - 1 + HEADER_BYTES,
    {
        size + (align - 1) + HEADER_BYTES
    }
}

/// Bytes kept in front of each handed-out address to record where its pool block starts.
pub const HEADER_BYTES: usize = 8;

/// Where in a pool block starting at `start` the address handed out for
/// alignment `align` lies: past the header, at the first aligned address.
pub fn user_offset(start: usize, align: usize) -> (r: usize)
    requires
        align > 0,
        start + HEADER_BYTES + align <= usize::MAX,
    ensures
        r == HEADER_BYTES + align_gap(start + HEADER_BYTES, align as int),
        r >= HEADER_BYTES,
        r <= HEADER_BYTES + align - 1,
        (start + r) % (align as int) == 0,
{
    let gap = align_offset(start + HEADER_BYTES, align);
    HEADER_BYTES + gap
}

/// The address of the header in front of a handed-out address, which holds
/// the start of its pool block.
pub fn header_address(user_addr: usize) -> (r: usize)
    requires
        user_addr >= HEADER_BYTES,
    ensures
        r == user_addr - HEADER_BYTES,
{
    user_addr - HEADER_BYTES
}

/// The offset from `addr` to the next address that is a multiple of `align`.
pub fn align_offset(addr: usize, align: usize) -> (r: usize)
    requires
        align > 0,
    ensures
        r == align_gap(addr as int, align as int),
        r < align,
        (addr + r) % (align as int) == 0,
{
    let rem = addr % align;
    let r = if rem == 0 { 0 } else { align - rem };
    proof {
        let a = align as int;
        let q = addr as int / a;
        assert(addr as int == q * a + rem) by (nonlinear_arith)
            requires
                rem == addr as int % a,
                q == addr as int / a,
                a > 0,
        ;
        if rem == 0 {
            assert(r == 0);
            assert((q * a) % a == 0) by (nonlinear_arith)
                requires
                    a > 0,
            ;
        } else {
            assert(r == align - rem);
            assert(addr + r == (q + 1) * a) by (nonlinear_arith)
                requires
                    addr as int == q * a + rem,
                    r == a - rem,
            ;
            assert(((q + 1) * a) % a == 0) by (nonlinear_arith)
                requires
                    a > 0,
            ;
        }
    }
    r
}

/// The address handed out for a block starting at `start` leaves the
/// header in front of it inside the block and the `size` bytes asked for
/// after it: the usable size never falls below the request, and the header
/// in front of the handed-out address starts inside the block.
pub proof fn lemma_aligned_block_fits(start: int, size: int, align: int)
    requires
        align > 0,
        size >= 0,
        start >= 0,
    ensures
        HEADER_BYTES + align_gap(start + HEADER_BYTES, align) + size <= size + align - 1 + HEADER_BYTES,
        start + HEADER_BYTES + align_gap(start + HEADER_BYTES, align) - HEADER_BYTES >= start,
{
}

} // verus!
