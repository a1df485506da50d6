use vstd::prelude::*;

use crate::error::{error_of, is_timeout_code, status_result, tx_result, TxError, TX_SUCCESS};

verus! {

/// How `get` matches the requested bits against the group's flags.
#[derive(Clone, Copy, Debug, PartialEq, Eq, Structural)]
pub enum GetOption {
    /// All requested bits must be set.
    WaitAll,
    /// All requested bits must be set; they are cleared on return.
    WaitAllAndClear,
    /// Any requested bit suffices.
    WaitAny,
    /// Any requested bit suffices; the requested bits are cleared on return.
    WaitAnyAndClear,
}

/// How `set` combines bits with the group's flags.
#[derive(Clone, Copy, Debug, PartialEq, Eq, Structural)]
pub enum SetOption {
    /// The group keeps only the flags that are also in the given bits.
    SetAndClear,
    /// The given bits are added to the group.
    SetAny,
}

/// The kernel's code for a get option.
pub open spec fn get_option_code(o: GetOption) -> u32 {
    match o {
        GetOption::WaitAll => 2,
        GetOption::WaitAllAndClear => 3,
        GetOption::WaitAny => 0,
        GetOption::WaitAnyAndClear => 1,
    }
}

/// The kernel's code for a set option.
pub open spec fn set_option_code(o: SetOption) -> u32 {
    match o {
        SetOption::SetAndClear => 2,
        SetOption::SetAny => 0,
    }
}

impl GetOption {
    /// The code the kernel expects for this option.
    pub fn code(&self) -> (r: u32)
        ensures
            r == get_option_code(*self),
    {
        match self {
            GetOption::WaitAll => 2,
            GetOption::WaitAllAndClear => 3,
            GetOption::WaitAny => 0,
            GetOption::WaitAnyAndClear => 1,
        }
    }
}

impl SetOption {
    /// The code the kernel expects for this option.
    pub fn code(&self) -> (r: u32)
        ensures
            r == set_option_code(*self),
    {
        match self {
            SetOption::SetAndClear => 2,
            SetOption::SetAny => 0,
        }
    }
}

/// The creation state of a 32-bit event-flags group. The flags themselves
/// live in the kernel; the library decides when the kernel may be asked and
/// what its answers mean.
pub struct EventFlagsGroup {
    created: bool,
}

impl EventFlagsGroup {
    /// Whether the group was created.
    pub closed spec fn is_created(&self) -> bool {
        self.created
    }

    /// A group not yet created.
    pub fn new() -> (r: EventFlagsGroup)
        ensures
            !r.is_created(),
    {
        EventFlagsGroup { created: false }
    }

    /// Whether the group was created; the kernel is asked to create it only while this is false.
    pub fn is_initialized(&self) -> (r: bool)
        ensures
            r == self.is_created(),
    {
        self.created
    }

    /// Records the kernel's answer to creating the group. A group already
    /// created is refused with `GroupError` and stays created.
    pub fn initialize(&mut self, create_status: u32) -> (r: Result<(), TxError>)
        ensures
            old(self).is_created() ==> r == Err::<(), TxError>(TxError::GroupError),
            !old(self).is_created() ==> r == status_result(create_status),
            final(self).is_created() == (old(self).is_created() || create_status == TX_SUCCESS),
    {
        if self.created {
            return Err(TxError::GroupError);
        }
        let r = tx_result(create_status);
        if r.is_ok() {
            self.created = true;
        }
        r
    }
}

/// The outcome of a get: the flags the kernel reported when the request was
/// met, or the error of its status (`NoEvents` when the wait elapsed).
pub fn get_result(status: u32, actual_flags: u32) -> (r: Result<u32, TxError>)
    ensures
        status == TX_SUCCESS ==> r == Ok::<u32, TxError>(actual_flags),
        status != TX_SUCCESS ==> r == Err::<u32, TxError>(error_of(status)),
{
    match tx_result(status) {
        Ok(()) => Ok(actual_flags),
        Err(e) => Err(e),
    }
}

/// A get that timed out reports a timeout-class error, which the caller may retry.
pub proof fn lemma_elapsed_get_is_timeout()
    ensures
        status_result(0x07) == Err::<(), TxError>(TxError::NoEvents),
        is_timeout_code(0x07),
{
}

} // verus!
