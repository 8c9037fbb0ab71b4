use easel::easel::{FrameOutcome, Session};

fn delta_of(outcome: FrameOutcome) -> Option<u64> {
    match outcome {
        FrameOutcome::Ran { delta_us } => delta_us,
        other => panic!("expected a consumer-visible frame, got {other:?}"),
    }
}

#[test]
fn construction_is_paused_and_unscheduled() {
    let s = Session::construct();
    assert!(s.is_live());
    assert!(s.is_paused());
    assert_eq!(s.outstanding_len(), 0);
    assert_eq!(s.cancelled_len(), 0);
}

#[test]
fn start_plays_immediately() {
    let s = Session::start();
    assert!(!s.is_paused());
    assert_eq!(s.outstanding_len(), 1);
}

#[test]
fn fire_without_schedule_does_nothing() {
    let mut s = Session::construct();
    assert_eq!(s.fire(1000), FrameOutcome::NoFrame);
    assert_eq!(s.outstanding_len(), 0);
}

#[test]
fn first_fire_has_no_delta_then_exact_deltas() {
    let mut s = Session::start();
    assert_eq!(delta_of(s.fire(17_000)), None);
    assert_eq!(delta_of(s.fire(33_670)), Some(16_670));
    assert_eq!(delta_of(s.fire(50_340)), Some(16_670));
}

#[test]
fn at_most_one_token_across_toggles() {
    let mut s = Session::construct();
    for _ in 0..10 {
        s.click();
        assert!(s.outstanding_len() <= 1);
    }
    for now in 0..20u64 {
        s.fire(now * 16_000);
        assert!(s.outstanding_len() <= 1);
    }
    assert_eq!(s.outstanding_len(), 1);
}

#[test]
fn pause_gates_only_consumer_work() {
    let mut s = Session::start();
    assert!(matches!(s.fire(16_000), FrameOutcome::Ran { .. }));
    s.click();
    assert!(s.is_paused());
    // Scheduling continues while paused: the fire is gated, not absent.
    assert_eq!(s.fire(32_000), FrameOutcome::Gated);
    assert_eq!(s.outstanding_len(), 1);
    s.click();
    // Toggling changes future fires only: the next fire runs again, and
    // its delta spans the gated frame too, since measurement never stopped.
    assert_eq!(delta_of(s.fire(48_000)), Some(16_000));
}

#[test]
fn teardown_cancels_outstanding_token() {
    let mut s = Session::start();
    s.fire(16_000);
    assert_eq!(s.outstanding_len(), 1);
    s.drop_handle();
    assert!(!s.is_live());
    assert_eq!(s.outstanding_len(), 0);
    assert_eq!(s.cancelled_len(), 1);
    // Token B, requested during the fire, is the one cancelled.
    assert_eq!(s.last_cancelled(), Some(1));
    // No further fires: nothing is scheduled.
    assert_eq!(s.fire(32_000), FrameOutcome::NoFrame);
    assert_eq!(s.fire(48_000), FrameOutcome::NoFrame);
}

#[test]
fn stale_callback_is_a_no_op_after_any_number_of_fires() {
    for n in 0..5u64 {
        let mut s = Session::start();
        for k in 0..n {
            s.fire(k * 16_000);
        }
        s.drop_handle();
        let cancelled = s.cancelled_len();
        for k in 0..3u64 {
            assert_eq!(s.invoke_stale((n + k) * 16_000), FrameOutcome::NoFrame);
            assert!(!s.is_live());
            assert_eq!(s.outstanding_len(), 0);
            assert_eq!(s.cancelled_len(), cancelled);
        }
    }
}

#[test]
fn unpausing_a_constructed_loop_schedules_once() {
    let mut s = Session::construct();
    s.click();
    assert_eq!(s.outstanding_len(), 1);
    s.click();
    s.click();
    s.click();
    assert_eq!(s.outstanding_len(), 1);
}

#[test]
fn paused_loop_keeps_measuring_rate() {
    let mut s = Session::start();
    s.click();
    // 70 gated fires at a steady 20 ms: the display settles at 50 fps even
    // though no consumer work ever ran.
    for k in 1..=70u64 {
        assert_eq!(s.fire(k * 20_000), FrameOutcome::Gated);
    }
    assert_eq!(s.reading_centi_fps(), Some(5_000));
}
