use threadx_rs::allocator::{align_offset, header_address, user_offset, ThreadXAllocator, HEADER_BYTES};
use threadx_rs::error::TxError;
use threadx_rs::pool::PoolError;
use threadx_rs::thread::{thread_name, Thread};
use threadx_rs::time::TxDuration;
use threadx_rs::timer::{TimerSchedule, Timer};

#[test]
fn short_thread_names_are_kept() {
    let buf = thread_name("thread1");
    assert_eq!(buf.len(), 32);
    assert_eq!(&buf[..7], b"thread1");
    assert!(buf[7..].iter().all(|b| *b == 0));
}

#[test]
fn long_thread_names_are_truncated() {
    let name = "a-thread-name-that-is-much-longer-than-the-kernel-allows";
    let buf = thread_name(name);
    assert_eq!(buf.len(), 32);
    assert_eq!(&buf[..31], &name.as_bytes()[..31]);
    assert_eq!(buf[31], 0);
}

#[test]
fn thread_typestate_transitions() {
    let mut t = Thread::new();
    assert_eq!(t.initialize_without_autostart(0x0F).err(), Some(TxError::PriorityError));
    let mut suspended = t.initialize_without_autostart(0).ok().unwrap();
    assert_eq!(t.initialize_with_autostart(0).err(), Some(TxError::ThreadError));
    assert_eq!(suspended.start(0x12).err(), Some(TxError::ResumeError));
    let running = suspended.start(0).ok().unwrap();
    let suspended = running.suspend(0).ok().unwrap();
    assert_eq!(suspended.delete(0x11), Err(TxError::DeleteError));
    let mut t2 = Thread::new();
    let running = t2.initialize_with_autostart(0).ok().unwrap();
    assert_eq!(running.delete(0), Ok(()));
}

#[test]
fn thread_creation_name_is_truncated() {
    let mut t = Thread::new();
    let name = "a-thread-name-that-is-much-longer-than-the-kernel-allows";
    let buf = t.creation_name(name).unwrap();
    assert_eq!(&buf[..31], &name.as_bytes()[..31]);
    assert_eq!(buf[31], 0);
    t.initialize_with_autostart(0).ok().unwrap();
    assert_eq!(t.creation_name("x").err(), Some(TxError::ThreadError));
}

#[test]
fn timer_schedule_in_ticks() {
    let mut timer = Timer::new();
    let r = timer.schedule(TxDuration::from_secs(5), TxDuration::from_secs(1), true, 100);
    assert_eq!(r, Ok(TimerSchedule { initial_ticks: 500, reschedule_ticks: 100, auto_activate: true }));
    assert!(r.unwrap().is_periodic());
    assert_eq!(timer.initialize_with_closure(0x99), Err(TxError::Unknown(0x99)));
    assert!(!timer.is_initialized());
    assert_eq!(timer.initialize_with_closure(0), Ok(()));
    let again = timer.schedule(TxDuration::from_secs(5), TxDuration::from_secs(1), true, 100);
    assert_eq!(again, Err(TxError::TimerError));
    assert_eq!(timer.initialize_with_closure(0), Err(TxError::TimerError));
}

#[test]
fn one_shot_timer_and_zero_delay() {
    let timer = Timer::new();
    assert_eq!(
        timer.schedule(TxDuration::from_millis(0), TxDuration::from_secs(0), false, 100),
        Err(TxError::TickError)
    );
    let r = timer.schedule(TxDuration::from_millis(15), TxDuration::from_secs(0), false, 100).unwrap();
    assert_eq!(r.initial_ticks, 2);
    assert!(!r.is_periodic());
}

#[test]
fn allocator_over_allocates_and_aligns() {
    let mut a = ThreadXAllocator::new();
    assert!(!a.is_initialized());
    assert_eq!(a.initialize(0x02), Err(PoolError::Tx(TxError::PoolError)));
    assert!(!a.is_initialized());
    assert_eq!(a.initialize(0), Ok(()));
    assert!(a.is_initialized());
    assert_eq!(a.initialize(0), Err(PoolError::AlreadyInitialized));
    assert_eq!(a.request_size(10, 8), 10 + 7 + HEADER_BYTES);
    assert_eq!(a.request_size(24, 1), 24 + HEADER_BYTES);
    assert_eq!(align_offset(0x1003, 8), 5);
    assert_eq!(align_offset(0x1000, 8), 0);
    assert_eq!(align_offset(13, 4), 3);
}

#[test]
fn handed_out_address_is_aligned_and_leaves_room() {
    for start in [0x1000usize, 0x1001, 0x1003, 0x1007] {
        for align in [1usize, 4, 8, 16, 64] {
            let off = user_offset(start, align);
            assert_eq!((start + off) % align, 0);
            assert!(off >= HEADER_BYTES);
            assert!(off + 100 <= 100 + align - 1 + HEADER_BYTES);
            assert!(header_address(start + off) >= start);
        }
    }
    assert_eq!(user_offset(0x1003, 16), 13);
    assert_eq!(header_address(0x1010), 0x1008);
}
