use vstd::prelude::*;

use core::marker::PhantomData;

use vstd::string::StringSliceAdditionalSpecFns;

use crate::error::{status_result, TxError};

verus! {

/// Typestate of a thread handle that was never created.
pub struct UnInitialized;

/// Typestate of a thread that is ready to run.
pub struct Running;

/// Typestate of a thread that is suspended.
pub struct Suspended;

/// Typestate of a thread that finished.
pub struct Stopped;

/// The kernel's limit on a thread name, terminator included.
pub const NAME_BUFFER_LEN: usize = 32;

/// The name buffer handed to the kernel: the first bytes of `name`, at most
/// one fewer than the buffer holds, then zeros.
pub open spec fn name_buffer(name: Seq<u8>) -> Seq<u8> {
    Seq::new(NAME_BUFFER_LEN as nat, |i: int| if i < name.len() && i < NAME_BUFFER_LEN - 1 { name[i] } else { 0u8 })
}

/// Copies a thread name into the kernel's fixed buffer. A name longer than
/// 31 bytes is cut to its first 31; the buffer always ends in a zero.
pub fn thread_name(name: &str) -> (r: Vec<u8>)
    ensures
        r@ == name_buffer(name.spec_bytes()),
{
    let bytes = name.as_bytes();
    let mut out: Vec<u8> = Vec::new();
    let mut i: usize = 0;
    while i < NAME_BUFFER_LEN
        invariant
            0 <= i <= NAME_BUFFER_LEN,
            bytes@ == name.spec_bytes(),
            out@.len() == i,
            forall|k: int| 0 <= k < i ==> #[trigger] out@[k] == name_buffer(bytes@)[k],
        decreases NAME_BUFFER_LEN - i,
    {
        if i < bytes.len() && i < NAME_BUFFER_LEN - 1 {
            out.push(bytes[i]);
        } else {
            out.push(0u8);
        }
        i = i + 1;
    }
    assert(out@ =~= name_buffer(name.spec_bytes()));
    out
}

/// A handle to a created thread, typed by the state it is in. Deleting
/// consumes it, so a deleted thread cannot be used again.
pub struct ThreadHandle<STATE> {
    state: PhantomData<STATE>,
}

/// The control block of a kernel thread, created at most once.
pub struct Thread {
    created: bool,
}

impl Thread {
    /// Whether the thread was created.
    pub closed spec fn is_created(&self) -> bool {
        self.created
    }

    /// Whether the thread was created; only then must the kernel not be asked again.
    pub fn is_initialized(&self) -> (r: bool)
        ensures
            r == self.is_created(),
    {
        self.created
    }

    /// A thread not yet created.
    pub fn new() -> (r: Thread)
        ensures
            !r.is_created(),
    {
        Thread { created: false }
    }

    /// The name buffer to create the thread with: the first 31 bytes of
    /// `name` at most, then zeros. A thread already created is refused with
    /// `ThreadError`, and the kernel is not asked.
    pub fn creation_name(&self, name: &str) -> (r: Result<Vec<u8>, TxError>)
        ensures
            self.is_created() ==> r is Err && r->Err_0 == TxError::ThreadError,
            !self.is_created() ==> r is Ok && r->Ok_0@ == name_buffer(name.spec_bytes()),
    {
        if self.created {
            return Err(TxError::ThreadError);
        }
        Ok(thread_name(name))
    }

    /// Records the kernel's answer to creating the thread ready to run. A
    /// thread already created is refused with `ThreadError`.
    pub fn initialize_with_autostart(&mut self, create_status: u32) -> (r: Result<ThreadHandle<Running>, TxError>)
        ensures
            old(self).is_created() ==> r is Err && r->Err_0 == TxError::ThreadError && final(self).is_created(),
            !old(self).is_created() ==> (r is Ok <==> status_result(create_status) is Ok),
            !old(self).is_created() && r is Err ==> status_result(create_status) == Err::<(), TxError>(r->Err_0),
            final(self).is_created() == (old(self).is_created() || r is Ok),
    {
        if self.created {
            return Err(TxError::ThreadError);
        }
        match crate::error::tx_result(create_status) {
            Ok(()) => {
                self.created = true;
                Ok(ThreadHandle { state: PhantomData })
            },
            Err(e) => Err(e),
        }
    }

    /// Records the kernel's answer to creating the thread suspended. A
    /// thread already created is refused with `ThreadError`.
    pub fn initialize_without_autostart(&mut self, create_status: u32) -> (r: Result<ThreadHandle<Suspended>, TxError>)
        ensures
            old(self).is_created() ==> r is Err && r->Err_0 == TxError::ThreadError && final(self).is_created(),
            !old(self).is_created() ==> (r is Ok <==> status_result(create_status) is Ok),
            !old(self).is_created() && r is Err ==> status_result(create_status) == Err::<(), TxError>(r->Err_0),
            final(self).is_created() == (old(self).is_created() || r is Ok),
    {
        if self.created {
            return Err(TxError::ThreadError);
        }
        match crate::error::tx_result(create_status) {
            Ok(()) => {
                self.created = true;
                Ok(ThreadHandle { state: PhantomData })
            },
            Err(e) => Err(e),
        }
    }
}

impl ThreadHandle<Suspended> {
    /// Resumes the thread once the kernel answered the resume with `resume_status`.
    pub fn start(&mut self, resume_status: u32) -> (r: Result<ThreadHandle<Running>, TxError>)
        ensures
            r is Ok <==> resume_status == crate::error::TX_SUCCESS,
            r is Err ==> status_result(resume_status) == Err::<(), TxError>(r->Err_0),
    {
        match crate::error::tx_result(resume_status) {
            Ok(()) => Ok(ThreadHandle { state: PhantomData }),
            Err(e) => Err(e),
        }
    }
}

impl ThreadHandle<Running> {
    /// Suspends the thread once the kernel answered the suspend with `suspend_status`.
    pub fn suspend(self, suspend_status: u32) -> (r: Result<ThreadHandle<Suspended>, TxError>)
        ensures
            r is Ok <==> suspend_status == crate::error::TX_SUCCESS,
            r is Err ==> status_result(suspend_status) == Err::<(), TxError>(r->Err_0),
    {
        match crate::error::tx_result(suspend_status) {
            Ok(()) => Ok(ThreadHandle { state: PhantomData }),
            Err(e) => Err(e),
        }
    }
}

impl<STATE> ThreadHandle<STATE> {
    /// Deletes the thread, consuming its handle, with the kernel's answer `delete_status`.
    pub fn delete(self, delete_status: u32) -> (r: Result<(), TxError>)
        ensures
            r == status_result(delete_status),
    {
        crate::error::tx_result(delete_status)
    }
}

} // verus!
