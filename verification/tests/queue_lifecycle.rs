//! Lifecycle tests for the pool / queue / recorder pipeline: acquisition
//! order, aliasing rules, pending tracking, exhaustion, and chaining.

use gpu_cmd::error::Error;
use gpu_cmd::pool::{Pool, POOL_CAPACITY};
use gpu_cmd::queue::Queue;

fn test_queue() -> Queue {
    let raws: Vec<u64> = (0..POOL_CAPACITY as u64).map(|i| 0x1000 + i).collect();
    let pool = Pool::new(0xA0, raws);
    // One graphics-capable family that can present.
    let families = vec![gpu_cmd::adapter::QueueFamily { flags: 1, surface_supported: true }];
    Queue::new(&families, true, 0xB0, pool).expect("queue creation")
}

#[test]
fn acquire_returns_first_slot() {
    let mut queue = test_queue();
    let recorder = queue.acquire(false).expect("acquire");
    assert_eq!(recorder.index, 0);
    assert_eq!(recorder.raw, 0x1000);
    assert!(recorder.state.commands.is_empty());
    assert!(recorder.state.barriers.is_empty());
}

#[test]
fn concurrent_nonchainable_recorders_get_distinct_slots() {
    let mut queue = test_queue();
    let r0 = queue.acquire(false).expect("first acquire");
    let r1 = queue.acquire(false).expect("second acquire");
    let r2 = queue.acquire(false).expect("third acquire");
    assert_ne!(r0.index, r1.index);
    assert_ne!(r1.index, r2.index);
    assert_ne!(r0.index, r2.index);
    assert_ne!(r0.raw, r1.raw);
}

#[test]
fn pending_slot_is_not_reacquired() {
    let mut queue = test_queue();
    let r0 = queue.acquire(false).expect("acquire");
    assert_eq!(r0.index, 0);
    let (submission, _steps) = queue.submit(r0);
    assert_eq!(submission.index, 0);
    // Slot 0 is pending: the next acquisition must pick another slot.
    assert!(queue.pool.buffers[0].tags.pending);
    let r1 = queue.acquire(false).expect("acquire while pending");
    assert_eq!(r1.index, 1);
}

#[test]
fn completed_slot_is_reacquired() {
    let mut queue = test_queue();
    let r0 = queue.acquire(false).expect("acquire");
    let (submission, _steps) = queue.submit(r0);
    queue.complete(&submission);
    assert!(!queue.pool.buffers[0].tags.pending);
    // Slot 0 is idle again and, being first, is handed out anew.
    let r1 = queue.acquire(false).expect("acquire after completion");
    assert_eq!(r1.index, 0);
}

#[test]
fn full_pool_of_open_recorders_exhausts_acquire() {
    let mut queue = test_queue();
    let mut seen = Vec::new();
    for _ in 0..POOL_CAPACITY {
        let recorder = queue.acquire(false).expect("acquire within capacity");
        assert!(!seen.contains(&recorder.index));
        seen.push(recorder.index);
    }
    // Every buffer is held by an open recorder: the next acquisition fails
    // instead of handing out an aliased buffer.
    let result = queue.acquire(false);
    assert!(matches!(result, Err(Error::PoolExhausted)));
}

#[test]
fn chainable_acquires_share_one_buffer() {
    let mut queue = test_queue();
    let r0 = queue.acquire(true).expect("first chainable acquire");
    let r1 = queue.acquire(true).expect("second chainable acquire");
    assert_eq!(r0.index, r1.index);
    assert_eq!(r0.raw, r1.raw);
}

#[test]
fn nonchainable_slot_is_not_chained() {
    let mut queue = test_queue();
    let r0 = queue.acquire(false).expect("exclusive acquire");
    let r1 = queue.acquire(true).expect("chainable acquire");
    assert_ne!(r0.index, r1.index);
}

#[test]
fn released_slot_becomes_idle_again() {
    let mut queue = test_queue();
    let mut r0 = queue.acquire(false).expect("acquire");
    r0.cmd_clear_buffer(7, 0, 64);
    queue.release(r0);
    // The abandoned recording is discarded and the slot handed out afresh.
    let r1 = queue.acquire(false).expect("acquire after release");
    assert_eq!(r1.index, 0);
    assert!(r1.state.commands.is_empty());
}

#[test]
fn submit_marks_pending_and_restores_state() {
    let mut queue = test_queue();
    let r0 = queue.acquire(false).expect("acquire");
    assert!(queue.pool.buffers[0].state.is_none());
    let (_submission, _steps) = queue.submit(r0);
    let tags = queue.pool.buffers[0].tags;
    assert!(tags.pending);
    assert!(!tags.recording);
    let restored = queue.pool.buffers[0].state.as_ref().expect("state restored");
    assert!(restored.commands.is_empty());
    assert!(restored.barriers.is_empty());
}

#[test]
fn exhausted_acquire_leaves_queue_usable() {
    let mut queue = test_queue();
    let mut recorders = Vec::new();
    for _ in 0..POOL_CAPACITY {
        recorders.push(queue.acquire(false).expect("acquire within capacity"));
    }
    assert!(matches!(queue.acquire(false), Err(Error::PoolExhausted)));
    // Submitting one recording frees no slot yet (pending), but completing
    // it does.
    let recorder = recorders.pop().expect("one held recorder");
    let index = recorder.index;
    let (submission, _steps) = queue.submit(recorder);
    assert!(matches!(queue.acquire(false), Err(Error::PoolExhausted)));
    queue.complete(&submission);
    let reacquired = queue.acquire(false).expect("acquire after completion");
    assert_eq!(reacquired.index, index);
}

#[test]
fn submission_can_be_polled() {
    let mut queue = test_queue();
    let r0 = queue.acquire(false).expect("acquire");
    let (submission, _steps) = queue.submit(r0);
    assert!(queue.is_pending(&submission));
    queue.complete(&submission);
    assert!(!queue.is_pending(&submission));
}

#[test]
fn error_descriptions() {
    assert_eq!(Error::PoolExhausted.describe(), "no free command buffer in the pool");
    assert_eq!(Error::NoQueueFamily.describe(), "no suitable queue family");
    assert_eq!(Error::NoAdapter.describe(), "no suitable adapter");
}
