use vstd::prelude::*;

use std::collections::VecDeque;

verus! {

/// The event-flag bit a signal uses to release its waiter.
pub const SIGNAL_FLAG: u32 = 0x1;

/// The hand-shake between a future's waker and the one thread that waits on it.
#[derive(Clone, Copy, Debug, PartialEq, Eq, Structural)]
pub enum SignalState {
    /// Nobody waits and no notification is pending.
    Empty,
    /// A thread is blocked on the signal's event flag.
    Waiting,
    /// A notification arrived while nobody waited.
    Notified,
}

/// What the waiting thread does once `wait` has decided.
#[derive(Clone, Copy, Debug, PartialEq, Eq, Structural)]
pub enum WaitAction {
    /// A notification was pending and is consumed: go on without blocking.
    Proceed,
    /// Release the signal's lock, then block on `SIGNAL_FLAG` with wait-and-clear.
    Block,
    /// Another thread already waits on this signal: a fatal usage error.
    Abort,
}

/// What the notifying side does once `notify` has decided.
#[derive(Clone, Copy, Debug, PartialEq, Eq, Structural)]
pub enum NotifyAction {
    /// Nothing to do: the notification is recorded or already pending.
    Nothing,
    /// Publish `SIGNAL_FLAG` to release the blocked waiter.
    Publish,
}

/// The state after `wait`, and what the waiter does.
pub open spec fn wait_step(s: SignalState) -> (SignalState, WaitAction) {
    match s {
        SignalState::Notified => (SignalState::Empty, WaitAction::Proceed),
        SignalState::Empty => (SignalState::Waiting, WaitAction::Block),
        SignalState::Waiting => (SignalState::Waiting, WaitAction::Abort),
    }
}

/// The state after `notify`, and what the notifier does.
pub open spec fn notify_step(s: SignalState) -> (SignalState, NotifyAction) {
    match s {
        SignalState::Notified => (SignalState::Notified, NotifyAction::Nothing),
        SignalState::Empty => (SignalState::Notified, NotifyAction::Nothing),
        SignalState::Waiting => (SignalState::Empty, NotifyAction::Publish),
    }
}

/// The state of a signal shared by a waker and the thread that blocks on it.
///
/// The state lives under the signal's kernel mutex; each method is the
/// decision taken while that lock is held.
pub struct Signal {
    pub state: SignalState,
}

impl Signal {
    /// A signal with no waiter and no pending notification.
    pub fn new() -> (r: Signal)
        ensures
            r.state == SignalState::Empty,
    {
        Signal { state: SignalState::Empty }
    }

    /// The waiting side: consume a pending notification, or register as the
    /// one waiter and block; a second waiter is refused.
    pub fn wait(&mut self) -> (r: WaitAction)
        ensures
            (final(self).state, r) == wait_step(old(self).state),
    {
        match self.state {
            SignalState::Notified => {
                self.state = SignalState::Empty;
                WaitAction::Proceed
            },
            SignalState::Empty => {
                self.state = SignalState::Waiting;
                WaitAction::Block
            },
            SignalState::Waiting => WaitAction::Abort,
        }
    }

    /// The waking side: leave a notification behind, or release the waiter.
    pub fn notify(&mut self) -> (r: NotifyAction)
        ensures
            (final(self).state, r) == notify_step(old(self).state),
    {
        match self.state {
            SignalState::Notified => NotifyAction::Nothing,
            SignalState::Empty => {
                self.state = SignalState::Notified;
                NotifyAction::Nothing
            },
            SignalState::Waiting => {
                self.state = SignalState::Empty;
                NotifyAction::Publish
            },
        }
    }
}

/// The outcome of polling a future once.
#[derive(Debug, PartialEq, Eq)]
pub enum Polled<T> {
    Ready(T),
    Pending,
}

/// What the thread that drives a future does after one poll.
#[derive(Debug, PartialEq, Eq)]
pub enum BlockOnStep<T> {
    /// The future finished with this value: return it.
    Done(T),
    /// A wake-up already arrived: poll again at once.
    PollAgain,
    /// Block on the signal's event flag, then poll again.
    Block,
    /// The signal already had a waiter: a fatal usage error.
    Abort,
}

/// One round of driving a future to completion on the signal its waker
/// notifies: a ready value ends the loop, a pending one waits on the signal.
pub fn block_on<T>(polled: Polled<T>, signal: &mut Signal) -> (r: BlockOnStep<T>)
    ensures
        polled matches Polled::Ready(v) ==> r == BlockOnStep::Done(v) && final(signal).state == old(signal).state,
        polled is Pending ==> final(signal).state == wait_step(old(signal).state).0,
        polled is Pending ==> r == match wait_step(old(signal).state).1 {
            WaitAction::Proceed => BlockOnStep::<T>::PollAgain,
            WaitAction::Block => BlockOnStep::<T>::Block,
            WaitAction::Abort => BlockOnStep::<T>::Abort,
        },
{
    match polled {
        Polled::Ready(v) => BlockOnStep::Done(v),
        Polled::Pending => match signal.wait() {
            WaitAction::Proceed => BlockOnStep::PollAgain,
            WaitAction::Block => BlockOnStep::Block,
            WaitAction::Abort => BlockOnStep::Abort,
        },
    }
}

/// No wake-up is lost: whenever a waiter blocks, the next notification
/// publishes the flag that releases it and leaves the signal empty again.
pub proof fn lemma_blocked_waiter_is_released(s: SignalState)
    requires
        wait_step(s).1 == WaitAction::Block,
    ensures
        notify_step(wait_step(s).0) == (SignalState::Empty, NotifyAction::Publish),
{
}

/// A notification that arrives before the wait is consumed by it, so the
/// waiter never blocks for it.
pub proof fn lemma_early_notify_skips_block(s: SignalState)
    requires
        s != SignalState::Waiting,
    ensures
        wait_step(notify_step(s).0) == (SignalState::Empty, WaitAction::Proceed),
{
}

/// A signal with a waiter refuses a second one and stays as it was.
pub proof fn lemma_second_waiter_aborts(s: SignalState)
    requires
        wait_step(s).1 == WaitAction::Block,
    ensures
        wait_step(wait_step(s).0) == (SignalState::Waiting, WaitAction::Abort),
{
}

/// The bookkeeping of the multi-task executor: a bounded ready queue of task
/// ids, and for each spawned task whether its future is still there to poll.
///
/// Tasks are numbered in spawn order. A full ready queue never drops a task:
/// `spawn` and `wake` report it so that the caller blocks until a slot frees.
pub struct Executor {
    ready: VecDeque<usize>,
    capacity: usize,
    pending: Vec<bool>,
}

impl Executor {
    /// Task ids waiting to be polled, oldest first.
    pub closed spec fn queued(&self) -> Seq<usize> {
        self.ready@
    }

    /// For each spawned task, whether its future has yet to finish.
    pub closed spec fn unfinished(&self) -> Seq<bool> {
        self.pending@
    }

    /// How many ids the ready queue holds.
    pub closed spec fn bound(&self) -> nat {
        self.capacity as nat
    }

    /// The queue stays within its bound and names spawned tasks only.
    pub open spec fn wf(&self) -> bool {
        &&& self.queued().len() <= self.bound()
        &&& forall|i: int| 0 <= i < self.queued().len() ==> #[trigger] self.queued()[i] < self.unfinished().len()
    }

    /// An executor whose ready queue holds `capacity` ids.
    pub fn new(capacity: usize) -> (r: Executor)
        ensures
            r.wf(),
            r.bound() == capacity,
            r.queued().len() == 0,
            r.unfinished().len() == 0,
    {
        Executor { ready: VecDeque::new(), capacity, pending: Vec::new() }
    }

    /// Adds a task and queues it for its first poll. With the queue full,
    /// nothing changes and `None` tells the caller to wait for a free slot.
    pub fn spawn(&mut self) -> (r: Option<usize>)
        requires
            old(self).wf(),
            old(self).unfinished().len() < usize::MAX,
        ensures
            final(self).wf(),
            final(self).bound() == old(self).bound(),
            old(self).queued().len() >= old(self).bound() ==> r is None && *final(self) == *old(self),
            old(self).queued().len() < old(self).bound() ==> r == Some(old(self).unfinished().len() as usize)
                && final(self).unfinished() == old(self).unfinished().push(true)
                && final(self).queued() == old(self).queued().push(old(self).unfinished().len() as usize),
    {
        if self.ready.len() >= self.capacity {
            return None;
        }
        let id = self.pending.len();
        self.pending.push(true);
        self.ready.push_back(id);
        Some(id)
    }

    /// A waker fired for `task`: queue it to be polled again. With the queue
    /// full, nothing changes and `false` tells the waker to wait for a slot.
    pub fn wake(&mut self, task: usize) -> (r: bool)
        requires
            old(self).wf(),
            task < old(self).unfinished().len(),
        ensures
            final(self).wf(),
            final(self).bound() == old(self).bound(),
            final(self).unfinished() == old(self).unfinished(),
            r == (old(self).queued().len() < old(self).bound()),
            r ==> final(self).queued() == old(self).queued().push(task),
            !r ==> final(self).queued() == old(self).queued(),
    {
        if self.ready.len() >= self.capacity {
            return false;
        }
        self.ready.push_back(task);
        true
    }

    /// Takes the oldest queued task, with whether its future is still there
    /// to poll (a task woken after it finished has nothing left to poll).
    pub fn next_ready(&mut self) -> (r: Option<(usize, bool)>)
        requires
            old(self).wf(),
        ensures
            final(self).wf(),
            final(self).bound() == old(self).bound(),
            final(self).unfinished() == old(self).unfinished(),
            old(self).queued().len() == 0 ==> r is None && final(self).queued() == old(self).queued(),
            old(self).queued().len() > 0 ==> r == Some((old(self).queued()[0], old(self).unfinished()[old(self).queued()[0] as int]))
                && final(self).queued() == old(self).queued().drop_first(),
    {
        match self.ready.pop_front() {
            None => None,
            Some(task) => {
                assert(old(self).queued()[0] < old(self).unfinished().len());
                Some((task, self.pending[task]))
            },
        }
    }

    /// Records the outcome of polling `task`: a finished future leaves its
    /// slot empty for good, a pending one stays to be woken.
    pub fn complete_poll(&mut self, task: usize, polled: Polled<()>) -> (r: bool)
        requires
            old(self).wf(),
            task < old(self).unfinished().len(),
        ensures
            final(self).wf(),
            final(self).bound() == old(self).bound(),
            final(self).queued() == old(self).queued(),
            r == (polled is Ready),
            final(self).unfinished() == old(self).unfinished().update(task as int, old(self).unfinished()[task as int] && !r),
    {
        let done = match polled {
            Polled::Ready(()) => true,
            Polled::Pending => false,
        };
        let still = self.pending[task] && !done;
        self.pending.set(task, still);
        done
    }
}

/// A task whose future finished is never polled again: no later step of
/// the executor gives it back its future.
pub proof fn lemma_finished_task_stays_finished(before: Seq<bool>, task: int, other: int, keep: bool)
    requires
        0 <= task < before.len(),
        !before[task],
        0 <= other < before.len(),
    ensures
        !before.update(other, before[other] && keep)[task],
        !before.push(true)[task],
{
}

} // verus!
