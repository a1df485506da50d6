use vstd::prelude::*;

use core::marker::PhantomData;

use crate::error::{is_timeout_code, status_result, tx_result, TxError, TX_SUCCESS};

verus! {

broadcast use vstd::layout::layout_of_primitives;

/// Smallest message the kernel queues, in bytes (one 32-bit word).
pub const MIN_MESSAGE_BYTES: usize = 4;

/// Largest message the kernel queues, in bytes (sixteen 32-bit words).
pub const MAX_MESSAGE_BYTES: usize = 64;

/// The number of 32-bit words a message of `bytes` bytes occupies in a slot.
pub open spec fn message_words(bytes: int) -> int {
    (bytes + 3) / 4
}

/// Messages that a storage region of `memory_bytes` holds, at `bytes` per message.
pub open spec fn slots_for(memory_bytes: int, bytes: int) -> int {
    memory_bytes / (4 * message_words(bytes))
}

/// The creation state of a kernel message queue of `T`, a plain-data type of
/// 4 to 64 bytes that the kernel copies in and out by value. The messages
/// themselves live in the kernel.
pub struct Queue<T: Copy> {
    created: bool,
    messages: PhantomData<T>,
}

impl<T: Copy> Queue<T> {
    /// Whether the queue was created over its storage.
    pub closed spec fn is_created(&self) -> bool {
        self.created
    }

    /// The message type has a size the kernel accepts.
    pub open spec fn wf(&self) -> bool {
        MIN_MESSAGE_BYTES <= vstd::layout::size_of::<T>() <= MAX_MESSAGE_BYTES
    }

    /// A queue not yet created. Message types outside 4 to 64 bytes are
    /// refused with `SizeError`.
    pub fn new() -> (r: Result<Queue<T>, TxError>)
        ensures
            r is Ok <==> MIN_MESSAGE_BYTES <= vstd::layout::size_of::<T>() <= MAX_MESSAGE_BYTES,
            r is Err ==> r == Err::<Queue<T>, TxError>(TxError::SizeError),
            r matches Ok(q) ==> q.wf() && !q.is_created(),
    {
        let size = core::mem::size_of::<T>();
        if size < MIN_MESSAGE_BYTES || size > MAX_MESSAGE_BYTES {
            return Err(TxError::SizeError);
        }
        Ok(Queue { created: false, messages: PhantomData })
    }

    /// The size of one message slot in 32-bit words, as the kernel is told it.
    pub fn message_size_words(&self) -> (r: usize)
        requires
            self.wf(),
        ensures
            r == message_words(vstd::layout::size_of::<T>() as int),
            1 <= r <= 16,
    {
        let size = core::mem::size_of::<T>();
        (size + 3) / 4
    }

    /// Whether the kernel may be asked to create the queue over
    /// `memory_bytes` bytes: a queue already created is refused with
    /// `QueueError`, storage too small for one message with `SizeError`.
    pub fn check_initialize(&self, memory_bytes: usize) -> (r: Result<(), TxError>)
        requires
            self.wf(),
        ensures
            self.is_created() ==> r == Err::<(), TxError>(TxError::QueueError),
            !self.is_created() && slots_for(memory_bytes as int, vstd::layout::size_of::<T>() as int) == 0
                ==> r == Err::<(), TxError>(TxError::SizeError),
            !self.is_created() && slots_for(memory_bytes as int, vstd::layout::size_of::<T>() as int) > 0
                ==> r is Ok,
    {
        if self.created {
            return Err(TxError::QueueError);
        }
        let words = self.message_size_words();
        if memory_bytes / (4 * words) == 0 {
            return Err(TxError::SizeError);
        }
        Ok(())
    }

    /// Creates the queue: the refusals of `check_initialize` come first and
    /// leave the kernel unasked; otherwise the result is the kernel's answer
    /// `create_status`, and the queue counts as created only on success.
    pub fn initialize(&mut self, memory_bytes: usize, create_status: u32) -> (r: Result<(), TxError>)
        requires
            old(self).wf(),
        ensures
            final(self).wf(),
            old(self).is_created() ==> r == Err::<(), TxError>(TxError::QueueError) && final(self).is_created(),
            !old(self).is_created() && slots_for(memory_bytes as int, vstd::layout::size_of::<T>() as int) == 0
                ==> r == Err::<(), TxError>(TxError::SizeError) && !final(self).is_created(),
            !old(self).is_created() && slots_for(memory_bytes as int, vstd::layout::size_of::<T>() as int) > 0
                ==> r == status_result(create_status)
                && final(self).is_created() == (create_status == TX_SUCCESS),
    {
        match self.check_initialize(memory_bytes) {
            Err(e) => Err(e),
            Ok(()) => {
                let r = tx_result(create_status);
                if r.is_ok() {
                    self.created = true;
                }
                r
            },
        }
    }
}

/// A send to a full queue that may not wait is answered with `QueueFull`,
/// a timeout-class error; an empty queue answers a receive with `QueueEmpty`.
pub proof fn lemma_full_and_empty_are_timeouts()
    ensures
        status_result(0x0B) == Err::<(), TxError>(TxError::QueueFull),
        is_timeout_code(0x0B),
        status_result(0x0A) == Err::<(), TxError>(TxError::QueueEmpty),
        is_timeout_code(0x0A),
{
}

} // verus!
