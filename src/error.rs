use vstd::prelude::*;

verus! {

/// Status code the kernel returns when a call succeeded.
pub const TX_SUCCESS: u32 = 0;

/// The wait value that lets a kernel call block without a time limit.
pub const TX_WAIT_FOREVER: u32 = 0xFFFF_FFFF;

/// The kernel's failure statuses, one variant per documented code.
///
/// A code the kernel documents nowhere is kept as `Unknown(code)` so that
/// diagnostics still see the number.
#[derive(Clone, Copy, Debug, PartialEq, Eq, Structural)]
pub enum TxError {
    Deleted,
    PoolError,
    PtrError,
    WaitError,
    SizeError,
    GroupError,
    NoEvents,
    OptionError,
    QueueError,
    QueueEmpty,
    QueueFull,
    SemaphoreError,
    NoInstance,
    ThreadError,
    PriorityError,
    NoMemory,
    DeleteError,
    ResumeError,
    CallerError,
    SuspendError,
    TimerError,
    TickError,
    ActivateError,
    ThreshError,
    SuspendLifted,
    WaitAborted,
    WaitAbortError,
    MutexError,
    NotAvailable,
    NotOwned,
    InheritError,
    NotDone,
    CeilingExceeded,
    InvalidCeiling,
    FeatureNotEnabled,
    Unknown(u32),
}

/// The error a non-success status code stands for.
pub open spec fn error_of(code: u32) -> TxError {
    match code {
        0x01 => TxError::Deleted,
        0x02 => TxError::PoolError,
        0x03 => TxError::PtrError,
        0x04 => TxError::WaitError,
        0x05 => TxError::SizeError,
        0x06 => TxError::GroupError,
        0x07 => TxError::NoEvents,
        0x08 => TxError::OptionError,
        0x09 => TxError::QueueError,
        0x0A => TxError::QueueEmpty,
        0x0B => TxError::QueueFull,
        0x0C => TxError::SemaphoreError,
        0x0D => TxError::NoInstance,
        0x0E => TxError::ThreadError,
        0x0F => TxError::PriorityError,
        0x10 => TxError::NoMemory,
        0x11 => TxError::DeleteError,
        0x12 => TxError::ResumeError,
        0x13 => TxError::CallerError,
        0x14 => TxError::SuspendError,
        0x15 => TxError::TimerError,
        0x16 => TxError::TickError,
        0x17 => TxError::ActivateError,
        0x18 => TxError::ThreshError,
        0x19 => TxError::SuspendLifted,
        0x1A => TxError::WaitAborted,
        0x1B => TxError::WaitAbortError,
        0x1C => TxError::MutexError,
        0x1D => TxError::NotAvailable,
        0x1E => TxError::NotOwned,
        0x1F => TxError::InheritError,
        0x20 => TxError::NotDone,
        0x21 => TxError::CeilingExceeded,
        0x22 => TxError::InvalidCeiling,
        0xFF => TxError::FeatureNotEnabled,
        _ => TxError::Unknown(code),
    }
}

/// The status code an error was built from.
pub open spec fn code_of(e: TxError) -> u32 {
    match e {
        TxError::Deleted => 0x01,
        TxError::PoolError => 0x02,
        TxError::PtrError => 0x03,
        TxError::WaitError => 0x04,
        TxError::SizeError => 0x05,
        TxError::GroupError => 0x06,
        TxError::NoEvents => 0x07,
        TxError::OptionError => 0x08,
        TxError::QueueError => 0x09,
        TxError::QueueEmpty => 0x0A,
        TxError::QueueFull => 0x0B,
        TxError::SemaphoreError => 0x0C,
        TxError::NoInstance => 0x0D,
        TxError::ThreadError => 0x0E,
        TxError::PriorityError => 0x0F,
        TxError::NoMemory => 0x10,
        TxError::DeleteError => 0x11,
        TxError::ResumeError => 0x12,
        TxError::CallerError => 0x13,
        TxError::SuspendError => 0x14,
        TxError::TimerError => 0x15,
        TxError::TickError => 0x16,
        TxError::ActivateError => 0x17,
        TxError::ThreshError => 0x18,
        TxError::SuspendLifted => 0x19,
        TxError::WaitAborted => 0x1A,
        TxError::WaitAbortError => 0x1B,
        TxError::MutexError => 0x1C,
        TxError::NotAvailable => 0x1D,
        TxError::NotOwned => 0x1E,
        TxError::InheritError => 0x1F,
        TxError::NotDone => 0x20,
        TxError::CeilingExceeded => 0x21,
        TxError::InvalidCeiling => 0x22,
        TxError::FeatureNotEnabled => 0xFF,
        TxError::Unknown(c) => c,
    }
}

/// The kernel's outcome of a call: success, or the error of its status.
pub open spec fn status_result(status: u32) -> Result<(), TxError> {
    if status == TX_SUCCESS {
        Ok(())
    } else {
        Err(error_of(status))
    }
}

/// Statuses a blocking call returns when its wait elapsed with nothing to take.
pub open spec fn is_timeout_code(code: u32) -> bool {
    code == 0x07 || code == 0x0A || code == 0x0B || code == 0x10 || code == 0x1D
}

impl TxError {
    /// Maps a raw status code; `None` for the success code.
    pub fn from_u32(code: u32) -> (r: Option<TxError>)
        ensures
            code == TX_SUCCESS ==> r.is_none(),
            code != TX_SUCCESS ==> r == Some(error_of(code)),
    {
        match code {
            0x00 => None,
            0x01 => Some(TxError::Deleted),
            0x02 => Some(TxError::PoolError),
            0x03 => Some(TxError::PtrError),
            0x04 => Some(TxError::WaitError),
            0x05 => Some(TxError::SizeError),
            0x06 => Some(TxError::GroupError),
            0x07 => Some(TxError::NoEvents),
            0x08 => Some(TxError::OptionError),
            0x09 => Some(TxError::QueueError),
            0x0A => Some(TxError::QueueEmpty),
            0x0B => Some(TxError::QueueFull),
            0x0C => Some(TxError::SemaphoreError),
            0x0D => Some(TxError::NoInstance),
            0x0E => Some(TxError::ThreadError),
            0x0F => Some(TxError::PriorityError),
            0x10 => Some(TxError::NoMemory),
            0x11 => Some(TxError::DeleteError),
            0x12 => Some(TxError::ResumeError),
            0x13 => Some(TxError::CallerError),
            0x14 => Some(TxError::SuspendError),
            0x15 => Some(TxError::TimerError),
            0x16 => Some(TxError::TickError),
            0x17 => Some(TxError::ActivateError),
            0x18 => Some(TxError::ThreshError),
            0x19 => Some(TxError::SuspendLifted),
            0x1A => Some(TxError::WaitAborted),
            0x1B => Some(TxError::WaitAbortError),
            0x1C => Some(TxError::MutexError),
            0x1D => Some(TxError::NotAvailable),
            0x1E => Some(TxError::NotOwned),
            0x1F => Some(TxError::InheritError),
            0x20 => Some(TxError::NotDone),
            0x21 => Some(TxError::CeilingExceeded),
            0x22 => Some(TxError::InvalidCeiling),
            0xFF => Some(TxError::FeatureNotEnabled),
            _ => Some(TxError::Unknown(code)),
        }
    }

    /// The status code this error was built from.
    pub fn code(&self) -> (r: u32)
        ensures
            r == code_of(*self),
    {
        match self {
            TxError::Deleted => 0x01,
            TxError::PoolError => 0x02,
            TxError::PtrError => 0x03,
            TxError::WaitError => 0x04,
            TxError::SizeError => 0x05,
            TxError::GroupError => 0x06,
            TxError::NoEvents => 0x07,
            TxError::OptionError => 0x08,
            TxError::QueueError => 0x09,
            TxError::QueueEmpty => 0x0A,
            TxError::QueueFull => 0x0B,
            TxError::SemaphoreError => 0x0C,
            TxError::NoInstance => 0x0D,
            TxError::ThreadError => 0x0E,
            TxError::PriorityError => 0x0F,
            TxError::NoMemory => 0x10,
            TxError::DeleteError => 0x11,
            TxError::ResumeError => 0x12,
            TxError::CallerError => 0x13,
            TxError::SuspendError => 0x14,
            TxError::TimerError => 0x15,
            TxError::TickError => 0x16,
            TxError::ActivateError => 0x17,
            TxError::ThreshError => 0x18,
            TxError::SuspendLifted => 0x19,
            TxError::WaitAborted => 0x1A,
            TxError::WaitAbortError => 0x1B,
            TxError::MutexError => 0x1C,
            TxError::NotAvailable => 0x1D,
            TxError::NotOwned => 0x1E,
            TxError::InheritError => 0x1F,
            TxError::NotDone => 0x20,
            TxError::CeilingExceeded => 0x21,
            TxError::InvalidCeiling => 0x22,
            TxError::FeatureNotEnabled => 0xFF,
            TxError::Unknown(c) => *c,
        }
    }

    /// Whether this error means that a bounded wait elapsed (or that there was
    /// nothing to take without waiting), so that a retry may succeed.
    pub fn is_timeout(&self) -> (r: bool)
        ensures
            r == is_timeout_code(code_of(*self)),
    {
        let c = self.code();
        c == 0x07 || c == 0x0A || c == 0x0B || c == 0x10 || c == 0x1D
    }
}

/// Turns a kernel status into the library's result model.
pub fn tx_result(status: u32) -> (r: Result<(), TxError>)
    ensures
        r == status_result(status),
{
    match TxError::from_u32(status) {
        None => Ok(()),
        Some(e) => Err(e),
    }
}

/// Every non-success status maps to an error that hands the same code back.
pub proof fn lemma_error_code_round_trip(code: u32)
    requires
        code != TX_SUCCESS,
    ensures
        code_of(error_of(code)) == code,
{
}

/// Errors the mutex wrapper reports.
#[derive(Clone, Copy, Debug, PartialEq, Eq, Structural)]
pub enum MutexError {
    /// The kernel refused the call.
    MutexError(TxError),
    /// The mutex was used before it was initialized.
    PoisonError,
}

} // verus!
