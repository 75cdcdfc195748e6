use random_light::bridge::WakeupBridge;
use random_light::color::{scale_channel, scaled_color, Rgb, BRIGHTNESS_SCALE};
use random_light::control::{step, LoopAction, LoopEvent, LoopState};
use random_light::update::{complete_write, plan_color, random_light, UpdateError};

#[test]
fn scale_stays_within_bounds() {
    for b in 0..=255u8 {
        for s in [0u8, 1, 8, 100, 255] {
            let r = scale_channel(b, s);
            assert!(r <= s);
        }
    }
}

#[test]
fn scale_is_monotonic_in_the_byte() {
    for s in [0u8, 1, 8, 100, 255] {
        let mut prev: u8 = 0;
        for b in 0..=255u8 {
            let r = scale_channel(b, s);
            assert!(prev <= r);
            prev = r;
        }
    }
}

#[test]
fn scale_of_full_byte_is_the_scale() {
    for s in 0..=255u8 {
        assert_eq!(scale_channel(255, s), s);
    }
}

#[test]
fn scale_of_zero_scale_is_zero() {
    for b in 0..=255u8 {
        assert_eq!(scale_channel(b, 0), 0);
    }
}

#[test]
fn scale_matches_the_formula_exactly() {
    assert_eq!(scale_channel(100, 8), 3); // floor(800 / 255)
    assert_eq!(scale_channel(200, 8), 6); // floor(1600 / 255)
    assert_eq!(scale_channel(31, 8), 0); // floor(248 / 255)
    assert_eq!(scale_channel(32, 8), 1); // floor(256 / 255)
    assert_eq!(scale_channel(128, 255), 128); // floor(32640 / 255)
}

#[test]
fn zero_bytes_give_black_at_any_scale() {
    for s in [0u8, 1, 8, 255] {
        let c = scaled_color(0, 0, 0, s);
        assert_eq!(c, Rgb { r: 0, g: 0, b: 0 });
    }
    assert_eq!(
        plan_color(Some((0, 0, 0))),
        Ok(Rgb { r: 0, g: 0, b: 0 })
    );
}

#[test]
fn full_bytes_at_scale_eight_give_eight() {
    assert_eq!(scaled_color(255, 255, 255, 8), Rgb { r: 8, g: 8, b: 8 });
    assert_eq!(BRIGHTNESS_SCALE, 8);
    assert_eq!(
        plan_color(Some((255, 255, 255))),
        Ok(Rgb { r: 8, g: 8, b: 8 })
    );
}

#[test]
fn failed_random_source_plans_no_color() {
    // No color value exists for the cycle, so the LED write is never reached.
    assert_eq!(plan_color(None), Err(UpdateError::RandomSourceFailure));
}

#[test]
fn failed_write_is_classified() {
    assert_eq!(complete_write(true), Ok(()));
    assert_eq!(complete_write(false), Err(UpdateError::LedWriteFailure));
}

#[test]
fn random_light_is_within_brightness_or_fails_cleanly() {
    // Exercises the real entropy source behind the trusted wrapper.
    match random_light() {
        Ok(c) => {
            assert!(c.r <= BRIGHTNESS_SCALE);
            assert!(c.g <= BRIGHTNESS_SCALE);
            assert!(c.b <= BRIGHTNESS_SCALE);
        }
        Err(e) => assert_eq!(e, UpdateError::RandomSourceFailure),
    }
}

#[test]
fn wakeup_starts_a_cycle() {
    let (s, a) = step(LoopState::ArmedWaiting, LoopEvent::Wakeup);
    assert_eq!(s, LoopState::Updating);
    assert_eq!(a, LoopAction::BeginUpdate);
}

#[test]
fn failed_cycle_returns_to_waiting_and_retries() {
    let (s, a) = step(
        LoopState::Updating,
        LoopEvent::CycleFinished(Err(UpdateError::LedWriteFailure)),
    );
    assert_eq!(s, LoopState::ArmedWaiting);
    assert_eq!(a, LoopAction::RearmAndWait);
    // A subsequent edge produces a new attempt.
    let (s2, a2) = step(s, LoopEvent::Wakeup);
    assert_eq!(s2, LoopState::Updating);
    assert_eq!(a2, LoopAction::BeginUpdate);
}

#[test]
fn successful_cycle_also_returns_to_waiting() {
    let (s, a) = step(LoopState::Updating, LoopEvent::CycleFinished(Ok(())));
    assert_eq!(s, LoopState::ArmedWaiting);
    assert_eq!(a, LoopAction::RearmAndWait);
}

#[test]
fn fresh_bridge_has_nothing_pending() {
    let b = WakeupBridge::new();
    assert!(!b.has_pending());
}

#[test]
fn edges_leave_a_wakeup_pending() {
    for n in 1..5u32 {
        let mut b = WakeupBridge::new();
        for _ in 0..n {
            b.on_edge();
        }
        assert!(b.has_pending());
    }
}

#[test]
fn consume_coalesces_and_clears() {
    let mut b = WakeupBridge::new();
    assert!(!b.consume());
    b.on_edge();
    b.on_edge();
    b.on_edge();
    assert!(b.consume());
    assert!(!b.has_pending());
    assert!(!b.consume());
}

#[test]
fn edge_during_update_is_consumed_afterwards() {
    let mut bridge = WakeupBridge::new();
    // A first edge wakes the loop; its wakeup is consumed.
    bridge.on_edge();
    assert!(bridge.consume());
    let (state, _) = step(LoopState::ArmedWaiting, LoopEvent::Wakeup);
    assert_eq!(state, LoopState::Updating);
    // Another edge lands mid-cycle.
    bridge.on_edge();
    // The cycle finishes (here: a failed write) and the loop re-arms.
    let (state, _) = step(
        state,
        LoopEvent::CycleFinished(Err(UpdateError::LedWriteFailure)),
    );
    assert_eq!(state, LoopState::ArmedWaiting);
    // The mid-cycle edge was not lost: the next wait wakes at once.
    assert!(bridge.consume());
    let (state, action) = step(state, LoopEvent::Wakeup);
    assert_eq!(state, LoopState::Updating);
    assert_eq!(action, LoopAction::BeginUpdate);
}
