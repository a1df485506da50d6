use vstd::prelude::*;

use crate::error::{status_result, tx_result, TxError, TX_SUCCESS};
use crate::time::{ticks_for, TxDuration, TxTicks};

verus! {

/// The tick counts a timer is created with.
#[derive(Clone, Copy, Debug, PartialEq, Eq, Structural)]
pub struct TimerSchedule {
    /// Ticks until the first expiry.
    pub initial_ticks: u32,
    /// Ticks between later expiries; zero for a one-shot timer.
    pub reschedule_ticks: u32,
    /// Whether the timer starts at creation.
    pub auto_activate: bool,
}

/// Ticks for a duration, capped at the largest tick count.
pub open spec fn capped_ticks(d: TxDuration, rate: u32) -> u32 {
    if ticks_for(d, rate) <= u32::MAX {
        ticks_for(d, rate) as u32
    } else {
        u32::MAX
    }
}

impl TimerSchedule {
    /// Whether the timer fires again after its first expiry.
    pub fn is_periodic(&self) -> (r: bool)
        ensures
            r == (self.reschedule_ticks != 0),
    {
        self.reschedule_ticks != 0
    }
}

/// A one-shot or periodic kernel timer, created at most once.
pub struct Timer {
    created: bool,
}

impl Timer {
    /// Whether the timer was created.
    pub closed spec fn is_created(&self) -> bool {
        self.created
    }

    /// Whether the timer was created; only then must the kernel not be asked again.
    pub fn is_initialized(&self) -> (r: bool)
        ensures
            r == self.is_created(),
    {
        self.created
    }

    /// A timer not yet created.
    pub fn new() -> (r: Timer)
        ensures
            !r.is_created(),
    {
        Timer { created: false }
    }

    /// Works out the schedule a timer is created with: the first expiry after
    /// `initial`, then every `period` (a zero period makes it one-shot), both
    /// rounded up to whole ticks at `ticks_per_second`. A timer already
    /// created is refused with `TimerError`, and a first expiry of zero ticks
    /// with `TickError`, as the kernel refuses it; the kernel is then not asked.
    pub fn schedule(
        &self,
        initial: TxDuration,
        period: TxDuration,
        auto_activate: bool,
        ticks_per_second: u32,
    ) -> (r: Result<TimerSchedule, TxError>)
        requires
            initial.wf(),
            period.wf(),
            ticks_per_second > 0,
        ensures
            self.is_created() ==> r == Err::<TimerSchedule, TxError>(TxError::TimerError),
            !self.is_created() && capped_ticks(initial, ticks_per_second) == 0 ==> r == Err::<
                TimerSchedule,
                TxError,
            >(TxError::TickError),
            !self.is_created() && capped_ticks(initial, ticks_per_second) > 0 ==> r == Ok::<TimerSchedule, TxError>(
                TimerSchedule {
                    initial_ticks: capped_ticks(initial, ticks_per_second),
                    reschedule_ticks: capped_ticks(period, ticks_per_second),
                    auto_activate,
                },
            ),
    {
        if self.created {
            return Err(TxError::TimerError);
        }
        let first = TxTicks::from_duration(initial, ticks_per_second);
        let every = TxTicks::from_duration(period, ticks_per_second);
        if first.ticks == 0 {
            return Err(TxError::TickError);
        }
        Ok(TimerSchedule { initial_ticks: first.ticks, reschedule_ticks: every.ticks, auto_activate })
    }

    /// Records the kernel's answer to creating the timer with its closure. A
    /// timer already created is refused with `TimerError`; otherwise the
    /// result is the kernel's, unknown codes included, and the timer counts
    /// as created only on success, so a refused creation may be retried.
    pub fn initialize_with_closure(&mut self, create_status: u32) -> (r: Result<(), TxError>)
        ensures
            old(self).is_created() ==> r == Err::<(), TxError>(TxError::TimerError),
            !old(self).is_created() ==> r == status_result(create_status),
            final(self).is_created() == (old(self).is_created() || create_status == TX_SUCCESS),
    {
        if self.created {
            return Err(TxError::TimerError);
        }
        let r = tx_result(create_status);
        if r.is_ok() {
            self.created = true;
        }
        r
    }
}

} // verus!
