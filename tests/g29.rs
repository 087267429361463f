use g29::command::{is_level_in_range, Level, RESET_SETTLE_SECS};
use g29::control::{NormalizedControl, Ratio};
use g29::lifecycle::{next_step, LoopStep, PumpLifecycle, StopAction};
use g29::session::{AxisState, G29Interface, SessionError, MIN_REPORT_LEN, REPORT_LEN};
use g29::steering::steering_value;

fn report(fine: u8, coarse: u8, throttle: u8, brake: u8, clutch: u8) -> Vec<u8> {
    let mut r = vec![0u8; REPORT_LEN];
    r[4] = fine;
    r[5] = coarse;
    r[6] = throttle;
    r[7] = brake;
    r[8] = clutch;
    r
}

fn level(num: i64, den: u64) -> Level {
    Level { num, den }
}

fn ratio_value(r: Ratio) -> f32 {
    r.num as f32 / r.den as f32
}

fn axes(steering: u8, throttle: u8, brake: u8, clutch: u8) -> AxisState {
    AxisState { steering, throttle, brake, clutch }
}

#[test]
fn test_start_stop_pumping() {
    let mut g29 = PumpLifecycle::new();

    assert!(g29.start_pumping().is_ok());
    assert!(g29.is_running(), "Thread not started");

    assert_eq!(g29.stop_pumping(), StopAction::JoinTask);

    assert!(!g29.is_running(), "Thread not stopped");
}

#[test]
fn start_twice_is_refused() {
    let mut l = PumpLifecycle::new();
    assert_eq!(l.start_pumping(), Ok(()));
    assert_eq!(l.start_pumping(), Err(SessionError::AlreadyRunning));
    assert!(l.is_running());
}

#[test]
fn stop_without_task_does_nothing() {
    let mut l = PumpLifecycle::new();
    assert_eq!(l.stop_pumping(), StopAction::NothingToStop);
    assert!(!l.is_running());
}

#[test]
fn start_stop_start_again() {
    let mut l = PumpLifecycle::new();
    assert_eq!(l.start_pumping(), Ok(()));
    assert_eq!(l.stop_pumping(), StopAction::JoinTask);
    assert_eq!(l.start_pumping(), Ok(()));
    assert!(l.is_running());
}

#[test]
fn loop_leaves_once_cancelled() {
    assert_eq!(next_step(false, Ok(0)), LoopStep::Pump);
    assert_eq!(next_step(false, Ok(16)), LoopStep::Pump);
    assert_eq!(next_step(true, Ok(16)), LoopStep::Exit);
}

#[test]
fn loop_fails_on_read_error() {
    let e = SessionError::TransportReadError;
    assert_eq!(next_step(false, Err(e)), LoopStep::Fail(e));
    assert_eq!(next_step(true, Err(e)), LoopStep::Fail(e));
}

#[test]
fn steering_scale_extremes() {
    assert_eq!(steering_value(0, 0), 0);
    assert_eq!(steering_value(255, 255), 100);
}

#[test]
fn steering_scale_exact_values() {
    // 128 * 6502500 / 16711680 = 49.8046875, rounded to 50
    assert_eq!(steering_value(128, 0), 50);
    // 1 * 6502500 / 16711680 = 0.389..., rounded to 0
    assert_eq!(steering_value(1, 0), 0);
    // 2 * 6502500 / 16711680 = 0.778..., rounded to 1
    assert_eq!(steering_value(2, 0), 1);
    // 255 * 25600 / 16711680 = 0.390625: the fine byte alone never reaches 1
    assert_eq!(steering_value(0, 255), 0);
    // (6502500 + 255 * 25600) / 16711680 = 0.779..., rounded to 1
    assert_eq!(steering_value(1, 255), 1);
}

#[test]
fn steering_scale_in_range_for_all_pairs() {
    let g = G29Interface::new();
    for c in 0..=255u8 {
        for f in 0..=255u8 {
            let v = steering_value(c, f);
            assert!(v <= 100);
            assert_eq!(v, steering_value(c, f));
            assert_eq!(g.calculate_steering(c, f), v);
        }
    }
}

#[test]
fn new_session_is_unset() {
    let g = G29Interface::new();
    assert_eq!(g.get_state(), axes(127, 255, 255, 255));
    assert!(ratio_value(g.carla_vehicle_controle().steering).abs() < 1e-6);
}

#[test]
fn first_full_report_becomes_baseline() {
    let mut g = G29Interface::new();
    assert_eq!(g.update_state(&report(0, 128, 200, 10, 0)), Err(SessionError::InvalidCacheState));
    assert_eq!(g.pump(&report(0, 128, 200, 10, 0)), 16);
    assert_eq!(g.get_state(), axes(127, 255, 255, 255));
    // later reports are decoded against the baseline
    assert_eq!(g.pump(&report(0, 128, 201, 10, 0)), 16);
    assert_eq!(g.get_state(), axes(127, 201, 255, 255));
    assert_eq!(g.pump(&report(0, 129, 201, 0, 7)), 16);
    // 129 * 6502500 / 16711680 = 50.19..., rounded to 50
    assert_eq!(g.get_state(), axes(50, 201, 0, 7));
}

#[test]
fn only_throttle_changed() {
    let mut g = G29Interface::new();
    let first = report(7, 100, 30, 40, 50);
    assert_eq!(g.pump(&first), 16);
    let before = g.get_state();
    let mut second = first.clone();
    second[6] = 99;
    assert_eq!(g.pump(&second), 16);
    let after = g.get_state();
    assert_eq!(after.throttle, 99);
    assert_eq!(after.steering, before.steering);
    assert_eq!(after.brake, before.brake);
    assert_eq!(after.clutch, before.clutch);
}

#[test]
fn unchanged_bytes_keep_values() {
    let mut g = G29Interface::with_cache(report(1, 2, 3, 4, 5));
    assert_eq!(g.update_state(&report(1, 2, 3, 4, 5)), Ok(()));
    assert_eq!(g.get_state(), axes(127, 255, 255, 255));
}

#[test]
fn fine_byte_alone_recomputes_steering() {
    let mut g = G29Interface::with_cache(report(0, 255, 0, 0, 0));
    assert_eq!(g.update_state(&report(255, 255, 0, 0, 0)), Ok(()));
    assert_eq!(g.get_state().steering, 100);
}

#[test]
fn short_report_changes_nothing() {
    let mut g = G29Interface::new();
    assert_eq!(g.pump(&vec![0u8; 16]), 16);
    assert_eq!(g.pump(&report(3, 100, 30, 40, 50)), 16);
    let before = g.get_state();
    let short = vec![9u8; MIN_REPORT_LEN - 1];
    assert_eq!(g.pump(&short), 11);
    assert_eq!(g.get_state(), before);
    // the cache was kept: the same full report again changes nothing
    assert_eq!(g.pump(&report(3, 100, 30, 40, 50)), 16);
    assert_eq!(g.get_state(), before);
}

#[test]
fn timeout_read_changes_nothing() {
    let mut g = G29Interface::new();
    assert_eq!(g.pump(&Vec::new()), 0);
    assert_eq!(g.get_state(), axes(127, 255, 255, 255));
}

#[test]
fn short_report_without_cache_fails() {
    let mut g = G29Interface::with_cache(Vec::new());
    assert_eq!(g.update_state(&vec![1u8; 5]), Err(SessionError::InvalidCacheState));
    assert_eq!(g.get_state(), axes(127, 255, 255, 255));
}

#[test]
fn short_report_with_cache_changes_nothing() {
    let mut g = G29Interface::with_cache(report(1, 2, 3, 4, 5));
    assert_eq!(g.update_state(&vec![9u8; 11]), Ok(()));
    assert_eq!(g.get_state(), axes(127, 255, 255, 255));
    // the cache was kept: a change at the throttle byte is still seen
    assert_eq!(g.update_state(&report(1, 2, 9, 4, 5)), Ok(()));
    assert_eq!(g.get_state(), axes(127, 9, 255, 255));
}

#[test]
fn decode_without_cache_fails() {
    let mut g = G29Interface::with_cache(Vec::new());
    let r = report(1, 2, 3, 4, 5);
    assert_eq!(g.update_state(&r), Err(SessionError::InvalidCacheState));
    assert_eq!(g.get_state(), axes(127, 255, 255, 255));
    // a cache shorter than a full report is no baseline either
    let mut h = G29Interface::with_cache(vec![0u8; 11]);
    assert_eq!(h.update_state(&r), Err(SessionError::InvalidCacheState));
    assert_eq!(h.get_state(), axes(127, 255, 255, 255));
}

#[test]
fn normalized_full_throttle_centered() {
    let c = axes(127, 255, 0, 255).to_normalized_control();
    assert_eq!(ratio_value(c.throttle), 1.0);
    assert_eq!(ratio_value(c.brake), 0.0);
    assert!(ratio_value(c.steering).abs() < 1e-6);
    assert_eq!(
        c,
        NormalizedControl {
            throttle: Ratio { num: 255, den: 255 },
            brake: Ratio { num: 0, den: 255 },
            steering: Ratio { num: 0, den: 127 },
        }
    );
}

#[test]
fn normalized_steering_extremes() {
    let left = axes(0, 0, 0, 0).to_normalized_control();
    assert!((ratio_value(left.steering) + 1.0).abs() < 1e-6);
    let right = axes(254, 0, 0, 0).to_normalized_control();
    assert!((ratio_value(right.steering) - 1.0).abs() < 1e-6);
    assert_eq!(right.steering, Ratio { num: 127, den: 127 });
}

#[test]
fn session_normalized_control() {
    let mut g = G29Interface::new();
    assert_eq!(g.pump(&report(0, 0, 0, 0, 0)), 16);
    assert_eq!(g.pump(&report(0, 128, 51, 102, 0)), 16);
    let c = g.carla_vehicle_controle();
    assert_eq!(c.throttle, Ratio { num: 51, den: 255 });
    assert_eq!(c.brake, Ratio { num: 102, den: 255 });
    assert_eq!(c.steering, Ratio { num: 50 - 127, den: 127 });
}

#[test]
fn force_feedback_out_of_range() {
    let g = G29Interface::new();
    assert_eq!(g.force_feedback_constant(level(3, 2)), Err(SessionError::OutOfRange));
    assert_eq!(g.force_feedback_constant(level(-1, 10)), Err(SessionError::OutOfRange));
    assert_eq!(g.force_feedback_constant(level(1, 0)), Err(SessionError::OutOfRange));
    assert_eq!(g.force_feedback_constant(level(0, 0)), Err(SessionError::OutOfRange));
    assert!(!is_level_in_range(level(1_000_001, 1_000_000)));
    assert!(is_level_in_range(level(1, 1)));
}

#[test]
fn force_feedback_frames() {
    let g = G29Interface::new();
    assert_eq!(g.force_feedback_constant(level(0, 1)), Ok(vec![0x14, 0, 0, 0, 0, 0, 0]));
    assert_eq!(g.force_feedback_constant(level(1, 1)), Ok(vec![0x14, 0, 255, 0, 0, 0, 0]));
    // 0.6 * 255 = 153
    assert_eq!(g.force_feedback_constant(level(3, 5)), Ok(vec![0x14, 0, 153, 0, 0, 0, 0]));
    // 0.5 * 255 = 127.5, rounded to 128
    assert_eq!(g.force_feedback_constant(level(1, 2)), Ok(vec![0x14, 0, 128, 0, 0, 0, 0]));
}

#[test]
fn autocenter_frames() {
    let g = G29Interface::new();
    let (enable, params) = g.set_autocenter(level(1, 2), level(1, 20)).unwrap();
    assert_eq!(enable, vec![0x14, 0, 0, 0, 0, 0, 0]);
    assert_eq!(params, vec![0xfe, 0x0d, 0x08, 0x08, 0x0d, 0x00, 0x00, 0x00]);
    let (_, full) = g.set_autocenter(level(1, 1), level(1, 1)).unwrap();
    assert_eq!(full, vec![0xfe, 0x0d, 15, 15, 255, 0, 0, 0]);
    // 15 * 333334 / 10000000 = 0.500001, rounded to 1
    let (_, small) = g.set_autocenter(level(333_334, 10_000_000), level(0, 1)).unwrap();
    assert_eq!(small, vec![0xfe, 0x0d, 1, 1, 0, 0, 0, 0]);
}

#[test]
fn autocenter_out_of_range() {
    let g = G29Interface::new();
    assert_eq!(g.set_autocenter(level(3, 2), level(1, 20)), Err(SessionError::OutOfRange));
    assert_eq!(g.set_autocenter(level(1, 2), level(-1, 1)), Err(SessionError::OutOfRange));
}

#[test]
fn reset_and_force_off_frames() {
    let g = G29Interface::new();
    let (first, second) = g.reset();
    assert_eq!(first, vec![0xf8, 0x0a, 0, 0, 0, 0, 0]);
    assert_eq!(second, vec![0xf8, 0x09, 0x05, 0x01, 0x01, 0, 0]);
    assert_eq!(g.force_off(), vec![0xf3, 0, 0, 0, 0, 0, 0]);
    assert_eq!(RESET_SETTLE_SECS, 10);
}
