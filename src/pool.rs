use vstd::prelude::*;

use crate::error::{error_of, status_result, tx_result, TxError, TX_SUCCESS};

verus! {

/// Errors of the byte pool.
#[derive(Clone, Copy, Debug, PartialEq, Eq, Structural)]
pub enum PoolError {
    /// The pool was already initialized.
    AlreadyInitialized,
    /// The kernel's status for the failed call.
    Tx(TxError),
}

/// The pool error a kernel status stands for.
pub open spec fn pool_status_result(status: u32) -> Result<(), PoolError> {
    if status == TX_SUCCESS {
        Ok(())
    } else {
        Err(PoolError::Tx(error_of(status)))
    }
}

/// Maps a kernel status of a pool call into the pool's result model.
pub fn pool_result(status: u32) -> (r: Result<(), PoolError>)
    ensures
        r == pool_status_result(status),
{
    match tx_result(status) {
        Ok(()) => Ok(()),
        Err(e) => Err(PoolError::Tx(e)),
    }
}

/// The creation state of a kernel byte pool. The region and its blocks are
/// the kernel's; the library decides when the kernel may be asked.
pub struct BytePool {
    created: bool,
}

impl BytePool {
    /// Whether the pool was created over its region.
    pub closed spec fn is_created(&self) -> bool {
        self.created
    }

    /// A pool not yet created.
    pub fn new() -> (r: BytePool)
        ensures
            !r.is_created(),
    {
        BytePool { created: false }
    }

    /// Whether the pool was created.
    pub fn is_initialized(&self) -> (r: bool)
        ensures
            r == self.is_created(),
    {
        self.created
    }

    /// Records the kernel's answer to creating the pool. A second
    /// initialization is refused with `AlreadyInitialized` and leaves the
    /// kernel unasked; the pool counts as created only on success.
    pub fn initialize(&mut self, create_status: u32) -> (r: Result<(), PoolError>)
        ensures
            old(self).is_created() ==> r == Err::<(), PoolError>(PoolError::AlreadyInitialized),
            !old(self).is_created() ==> r == pool_status_result(create_status),
            final(self).is_created() == (old(self).is_created() || create_status == TX_SUCCESS),
    {
        if self.created {
            return Err(PoolError::AlreadyInitialized);
        }
        let r = pool_result(create_status);
        if r.is_ok() {
            self.created = true;
        }
        r
    }

    /// Whether the kernel may be asked for `size` bytes: a pool not created
    /// is refused with `PoolError`, an empty request with `SizeError`.
    pub fn check_allocate(&self, size: usize) -> (r: Result<(), PoolError>)
        ensures
            !self.is_created() ==> r == Err::<(), PoolError>(PoolError::Tx(TxError::PoolError)),
            self.is_created() && size == 0 ==> r == Err::<(), PoolError>(PoolError::Tx(TxError::SizeError)),
            self.is_created() && size > 0 ==> r is Ok,
    {
        if !self.created {
            return Err(PoolError::Tx(TxError::PoolError));
        }
        if size == 0 {
            return Err(PoolError::Tx(TxError::SizeError));
        }
        Ok(())
    }
}

/// An allocation that waited in vain is answered with `NoMemory`.
pub proof fn lemma_exhausted_pool_reports_no_memory()
    ensures
        pool_status_result(0x10) == Err::<(), PoolError>(PoolError::Tx(TxError::NoMemory)),
        status_result(0x10) == Err::<(), TxError>(TxError::NoMemory),
{
}

} // verus!
