use rucord::identify_queue::IdentifyQueue;
use rucord::IDENTIFY_WINDOW_MS;

#[test]
fn fresh_queue_grants_first_slot_at_once() {
    let mut q = IdentifyQueue::new(10_000);
    assert_eq!(q.wait_ms(10_000), 0);
    let r = q.await_slot(10_000, 2);
    assert_eq!(r, 10_000);
}

#[test]
fn cold_start_grants_first_slot_without_delay() {
    // A queue created while the clock has run for less than a window
    // still admits its first caller at once.
    let mut q = IdentifyQueue::new(0);
    assert_eq!(q.wait_ms(0), 0);
    assert_eq!(q.await_slot(0, 1), 0);

    let mut q = IdentifyQueue::new(3);
    assert_eq!(q.wait_ms(3), 0);
    assert_eq!(q.await_slot(3, 2), 3);
    assert_eq!(q.await_slot(4, 2), 4);
    // Only once both slots are gone does the window gate.
    assert_eq!(q.wait_ms(5), IDENTIFY_WINDOW_MS - 2);
}

#[test]
fn slots_within_a_window_are_granted_at_once() {
    let mut q = IdentifyQueue::new(10_000);
    assert_eq!(q.await_slot(10_000, 3), 10_000);
    assert_eq!(q.await_slot(10_001, 3), 10_001);
    assert_eq!(q.await_slot(10_002, 3), 10_002);
}

#[test]
fn exhausted_window_delays_by_exactly_the_remainder() {
    let mut q = IdentifyQueue::new(10_000);
    // The first admission opens a window at 10_000 and takes both
    // slots' worth below.
    assert_eq!(q.await_slot(10_000, 2), 10_000);
    assert_eq!(q.await_slot(10_500, 2), 10_500);
    // The window (opened at 10_000) is exhausted; a caller at 11_000
    // has seen 1_000 ms of it elapse and waits 5_000 - 1_000 more.
    assert_eq!(q.wait_ms(11_000), IDENTIFY_WINDOW_MS - 1_000);
    let r = q.await_slot(11_000, 2);
    assert_eq!(r, 10_000 + IDENTIFY_WINDOW_MS);
}

#[test]
fn single_slot_windows_space_releases_a_window_apart() {
    let mut q = IdentifyQueue::new(10_000);
    let r1 = q.await_slot(10_000, 1);
    let r2 = q.await_slot(r1, 1);
    let r3 = q.await_slot(r2, 1);
    assert_eq!(r1, 10_000);
    assert_eq!(r2, r1 + IDENTIFY_WINDOW_MS);
    assert_eq!(r3, r2 + IDENTIFY_WINDOW_MS);
}

#[test]
fn elapsed_window_opens_a_new_one_without_delay() {
    let mut q = IdentifyQueue::new(10_000);
    assert_eq!(q.await_slot(10_000, 1), 10_000);
    // Long after the window ended, the next caller passes untouched.
    assert_eq!(q.wait_ms(100_000), 0);
    assert_eq!(q.await_slot(100_000, 1), 100_000);
}

#[test]
fn at_most_k_releases_share_a_window() {
    // Drive three windows of two admissions each and check the cap by
    // grouping the releases by the window they were granted in.
    let k = 2u64;
    let mut q = IdentifyQueue::new(10_000);
    let mut now = 10_000u64;
    let mut releases = Vec::new();
    for _ in 0..6 {
        let r = q.await_slot(now, k);
        releases.push(r);
        now = r + 1;
    }
    // Releases come in pairs; each pair's window starts five seconds
    // after the previous pair's.
    assert_eq!(releases.len(), 6);
    for w in 0..3 {
        let first = releases[2 * w];
        let second = releases[2 * w + 1];
        assert!(second >= first);
        assert!(second < first + IDENTIFY_WINDOW_MS);
        if w > 0 {
            let prev_first = releases[2 * (w - 1)];
            assert!(first >= prev_first + IDENTIFY_WINDOW_MS);
        }
    }
}
