use threadx_rs::error::{tx_result, MutexError, TxError};
use threadx_rs::event_flags::{get_result, EventFlagsGroup, GetOption, SetOption};
use threadx_rs::executor::{block_on, BlockOnStep, NotifyAction, Polled, Signal, SignalState, WaitAction};
use threadx_rs::mutex::Mutex;
use threadx_rs::pool::{pool_result, BytePool, PoolError};
use threadx_rs::queue::Queue;
use threadx_rs::time::{TxDuration, TxTicks};
use threadx_rs::wait::WaitOption;

#[test]
fn status_codes_map_to_errors() {
    assert_eq!(tx_result(0), Ok(()));
    assert_eq!(tx_result(0x07), Err(TxError::NoEvents));
    assert_eq!(tx_result(0x0B), Err(TxError::QueueFull));
    assert_eq!(tx_result(0x10), Err(TxError::NoMemory));
    assert_eq!(tx_result(0xFF), Err(TxError::FeatureNotEnabled));
    assert_eq!(tx_result(0x99), Err(TxError::Unknown(0x99)));
    assert_eq!(TxError::from_u32(0), None);
    assert_eq!(TxError::from_u32(0x1C), Some(TxError::MutexError));
}

#[test]
fn error_codes_round_trip() {
    for code in 1u32..=0x22 {
        let e = TxError::from_u32(code).unwrap();
        assert_eq!(e.code(), code);
    }
    assert_eq!(TxError::Unknown(0x40).code(), 0x40);
}

#[test]
fn timeout_class_errors() {
    assert!(TxError::QueueFull.is_timeout());
    assert!(TxError::QueueEmpty.is_timeout());
    assert!(TxError::NoEvents.is_timeout());
    assert!(TxError::NotAvailable.is_timeout());
    assert!(!TxError::PtrError.is_timeout());
    assert!(!TxError::Unknown(0x40).is_timeout());
}

#[test]
fn wait_options_encode_for_the_kernel() {
    assert_eq!(WaitOption::WaitForever.as_ticks(), 0xFFFF_FFFF);
    assert_eq!(WaitOption::NoWait.as_ticks(), 0);
    assert_eq!(WaitOption::WaitFor(25).as_ticks(), 25);
    assert!(!WaitOption::NoWait.may_block());
    assert!(WaitOption::WaitFor(1).may_block());
}

fn ticks_for_millis(ms: u64, rate: u32) -> u32 {
    TxTicks::from_duration(TxDuration::from_millis(ms), rate).ticks
}

#[test]
fn sleep_ticks_round_up_at_100_hz() {
    let expected = [(0u64, 0u32), (1, 1), (9, 1), (10, 1), (11, 2), (999, 100)];
    for (ms, ticks) in expected {
        assert_eq!(ticks_for_millis(ms, 100), ticks, "{} ms", ms);
    }
}

#[test]
fn sleep_ticks_round_up_at_1000_hz() {
    let expected = [(0u64, 0u32), (1, 1), (9, 9), (10, 10), (11, 11), (999, 999)];
    for (ms, ticks) in expected {
        assert_eq!(ticks_for_millis(ms, 1000), ticks, "{} ms", ms);
    }
}

#[test]
fn sub_tick_durations_take_one_tick() {
    let d = TxDuration::new(0, 1).unwrap();
    assert_eq!(TxTicks::from_duration(d, 100).ticks, 1);
    let d = TxDuration::new(2, 1_500_000_000).unwrap();
    assert_eq!(d, TxDuration { secs: 3, nanos: 500_000_000 });
    assert_eq!(TxTicks::from_duration(d, 100).ticks, 350);
    assert_eq!(TxDuration::new(u64::MAX, 1_000_000_000), None);
}

#[test]
fn huge_durations_saturate() {
    let d = TxDuration::from_secs(u64::MAX);
    assert_eq!(TxTicks::from_duration(d, 1000).ticks, u32::MAX);
}

#[test]
fn block_on_returns_after_one_kernel_block() {
    let mut signal = Signal::new();
    let mut kernel_blocks = 0;
    let mut notified = false;
    let mut result = None;
    for _round in 0..4 {
        let polled = if notified { Polled::Ready(42) } else { Polled::Pending };
        match block_on(polled, &mut signal) {
            BlockOnStep::Done(v) => {
                result = Some(v);
                break;
            }
            BlockOnStep::Block => {
                kernel_blocks += 1;
                // Another thread's waker fires while this one is blocked.
                assert_eq!(signal.notify(), NotifyAction::Publish);
                notified = true;
            }
            BlockOnStep::PollAgain => {}
            BlockOnStep::Abort => panic!("unexpected second waiter"),
        }
    }
    assert_eq!(result, Some(42));
    assert_eq!(kernel_blocks, 1);
    assert_eq!(signal.state, SignalState::Empty);
}

#[test]
fn notify_before_wait_skips_the_kernel() {
    let mut signal = Signal::new();
    assert_eq!(signal.notify(), NotifyAction::Nothing);
    assert_eq!(signal.state, SignalState::Notified);
    assert_eq!(signal.notify(), NotifyAction::Nothing);
    assert_eq!(block_on(Polled::<u32>::Pending, &mut signal), BlockOnStep::PollAgain);
    assert_eq!(signal.state, SignalState::Empty);
}

#[test]
fn second_waiter_is_fatal() {
    let mut signal = Signal::new();
    assert_eq!(signal.wait(), WaitAction::Block);
    assert_eq!(signal.wait(), WaitAction::Abort);
    assert_eq!(signal.state, SignalState::Waiting);
    assert_eq!(block_on(Polled::<u32>::Pending, &mut signal), BlockOnStep::Abort);
}

#[test]
fn mutex_initialize_is_idempotent() {
    let mut m = Mutex::new(5u32);
    assert!(!m.is_initialized());
    assert_eq!(m.initialize(0x1C), Err(TxError::MutexError));
    assert!(!m.is_initialized());
    assert_eq!(m.initialize(0), Ok(()));
    assert!(m.is_initialized());
    assert_eq!(m.initialize(0x1C), Ok(()));
}

#[test]
fn mutex_lock_before_initialize_is_poisoned() {
    let mut m = Mutex::new(0u8);
    assert!(matches!(m.lock(1, 0), Err(MutexError::PoisonError)));
}

#[test]
fn mutex_lock_reports_kernel_errors() {
    let mut m = Mutex::new(0u8);
    m.initialize(0).unwrap();
    assert!(matches!(m.lock(1, 0x1D), Err(MutexError::MutexError(TxError::NotAvailable))));
}

#[test]
fn mutex_lock_release_cycles_across_threads() {
    let mut m = Mutex::new(0u64);
    m.initialize(0).unwrap();
    for _cycle in 0..50 {
        for thread in 1..=4u32 {
            let guard = m.lock(thread, 0).unwrap();
            assert_eq!(guard.thread(), thread);
            let v = *m.get(&guard);
            m.set(&guard, v + 1);
            m.unlock(guard).unwrap();
        }
    }
    let guard = m.lock(9, 0).unwrap();
    assert_eq!(*m.get(&guard), 200);
    m.unlock(guard).unwrap();
}

#[test]
fn mutex_refuses_a_grant_while_held_elsewhere() {
    let mut m = Mutex::new(());
    m.initialize(0).unwrap();
    let g = m.lock(1, 0).unwrap();
    assert!(matches!(m.lock(2, 0), Err(MutexError::PoisonError)));
    let again = m.lock(1, 0).unwrap();
    m.unlock(again).unwrap();
    m.unlock(g).unwrap();
    assert!(m.lock(2, 0).is_ok());
}

#[test]
fn event_group_is_created_once() {
    let mut g = EventFlagsGroup::new();
    assert!(!g.is_initialized());
    assert_eq!(g.initialize(0x06), Err(TxError::GroupError));
    assert!(!g.is_initialized());
    assert_eq!(g.initialize(0), Ok(()));
    assert!(g.is_initialized());
    assert_eq!(g.initialize(0), Err(TxError::GroupError));
}

#[test]
fn get_returns_the_reported_flags() {
    assert_eq!(get_result(0, 0b0111), Ok(0b0111));
    let elapsed = get_result(0x07, 0);
    assert_eq!(elapsed, Err(TxError::NoEvents));
    assert!(elapsed.unwrap_err().is_timeout());
    assert_eq!(get_result(0x06, 5), Err(TxError::GroupError));
    assert_eq!(get_result(0x77, 5), Err(TxError::Unknown(0x77)));
}

#[test]
fn get_and_set_option_codes() {
    assert_eq!(GetOption::WaitAll.code(), 2);
    assert_eq!(GetOption::WaitAllAndClear.code(), 3);
    assert_eq!(GetOption::WaitAny.code(), 0);
    assert_eq!(GetOption::WaitAnyAndClear.code(), 1);
    assert_eq!(SetOption::SetAndClear.code(), 2);
    assert_eq!(SetOption::SetAny.code(), 0);
}

#[derive(Clone, Copy, Debug, PartialEq)]
struct Reading {
    id: u32,
    value: u32,
}

#[test]
fn queue_creation_follows_the_kernel() {
    let mut q: Queue<Reading> = Queue::new().unwrap();
    assert_eq!(q.message_size_words(), 2);
    assert_eq!(q.check_initialize(7), Err(TxError::SizeError));
    assert_eq!(q.check_initialize(8), Ok(()));
    assert_eq!(q.initialize(64, 0x09), Err(TxError::QueueError));
    assert_eq!(q.initialize(64, 0x05), Err(TxError::SizeError));
    assert_eq!(q.initialize(64, 0), Ok(()));
    assert_eq!(q.check_initialize(64), Err(TxError::QueueError));
    assert_eq!(q.initialize(64, 0), Err(TxError::QueueError));
}

#[test]
fn queue_full_is_a_timeout_class_error() {
    let full = tx_result(0x0B);
    assert_eq!(full, Err(TxError::QueueFull));
    assert!(full.unwrap_err().is_timeout());
}

#[test]
fn queue_message_sizes_are_checked() {
    assert_eq!(Queue::<u8>::new().err(), Some(TxError::SizeError));
    assert_eq!(Queue::<[u32; 17]>::new().err(), Some(TxError::SizeError));
    assert_eq!(Queue::<[u32; 16]>::new().unwrap().message_size_words(), 16);
    let mut q: Queue<[u8; 5]> = Queue::new().unwrap();
    assert_eq!(q.message_size_words(), 2);
    assert_eq!(q.initialize(7, 0), Err(TxError::SizeError));
    assert_eq!(q.initialize(8, 0), Ok(()));
}

#[test]
fn pool_is_created_once_and_only_on_success() {
    let mut pool = BytePool::new();
    assert_eq!(pool.check_allocate(4), Err(PoolError::Tx(TxError::PoolError)));
    assert_eq!(pool.initialize(0x05), Err(PoolError::Tx(TxError::SizeError)));
    assert!(!pool.is_initialized());
    assert_eq!(pool.initialize(0), Ok(()));
    assert_eq!(pool.initialize(0), Err(PoolError::AlreadyInitialized));
    assert_eq!(pool.check_allocate(0), Err(PoolError::Tx(TxError::SizeError)));
    assert_eq!(pool.check_allocate(256), Ok(()));
}

#[test]
fn pool_allocation_statuses() {
    assert_eq!(pool_result(0), Ok(()));
    assert_eq!(pool_result(0x10), Err(PoolError::Tx(TxError::NoMemory)));
    assert_eq!(pool_result(0x02), Err(PoolError::Tx(TxError::PoolError)));
}
