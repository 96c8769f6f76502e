use xlnc_apex_robot::buzzer::{note_steps, note_timing, BuzzerStep, PWM_DIV_INT};
use xlnc_apex_robot::motion::{
    motor_and_servo_play_program, motor_play_program, DriveCommand, MotionStep,
};
use xlnc_apex_robot::network::{
    action, is_outcome_of, start, step, EchoAction, EchoEvent, EchoPhase, BUFFER_LEN, ECHO_PORT,
    SOCKET_TIMEOUT_SECS, STATUS_LED_GPIO,
};
use xlnc_apex_robot::path::{closest_index, MAX_DISTANCE_KEY};

fn key(d: f32) -> u32 {
    d.to_bits()
}

#[test]
fn closest_picks_smallest_distance() {
    let keys = vec![key(4.0), key(0.25), key(1.0)];
    assert_eq!(closest_index(&keys, 0), Some(1));
}

#[test]
fn closest_first_of_equal_distances_wins() {
    let keys = vec![key(2.0), key(0.5), key(0.5), key(3.0)];
    assert_eq!(closest_index(&keys, 0), Some(1));
}

#[test]
fn closest_skips_segments_before_start() {
    let keys = vec![key(0.0), key(2.0), key(1.5)];
    assert_eq!(closest_index(&keys, 1), Some(2));
    assert_eq!(closest_index(&keys, 3), None);
    assert_eq!(closest_index(&keys, 7), None);
}

#[test]
fn closest_ignores_nan_infinite_and_max() {
    let keys = vec![key(f32::NAN), key(f32::INFINITY), key(f32::MAX)];
    assert_eq!(closest_index(&keys, 0), None);
    let keys = vec![key(f32::NAN), key(9.0)];
    assert_eq!(closest_index(&keys, 0), Some(1));
    assert_eq!(MAX_DISTANCE_KEY, f32::MAX.to_bits());
}

#[test]
fn closest_keys_order_like_distances() {
    let ds = [0.0f32, 1e-30, 0.1, 0.2, 1.0, 1e20, f32::MAX];
    for w in ds.windows(2) {
        assert!(key(w[0]) < key(w[1]));
    }
    let empty: [u32; 0] = [];
    assert_eq!(closest_index(&empty, 0), None);
}

#[test]
fn note_timing_splits_nine_to_one() {
    let t = note_timing(500);
    assert_eq!((t.play_ms, t.pause_ms), (450, 50));
    let t = note_timing(1499);
    assert_eq!((t.play_ms, t.pause_ms), (1350, 149));
    let t = note_timing(7);
    assert_eq!((t.play_ms, t.pause_ms), (7, 0));
    let t = note_timing(u64::MAX);
    assert_eq!(t.play_ms + t.pause_ms, u64::MAX);
}

#[test]
fn note_steps_sound_then_silence() {
    let s = note_steps(5325, 750);
    assert_eq!(
        s,
        [
            BuzzerStep::SetTop(5325),
            BuzzerStep::SetDutyPercent(50),
            BuzzerStep::WaitMs(675),
            BuzzerStep::SetDutyPercent(0),
            BuzzerStep::WaitMs(75),
        ]
    );
    assert_eq!(PWM_DIV_INT, 64);
}

#[test]
fn motor_play_alternates_directions() {
    let p = motor_play_program();
    assert_eq!(
        p,
        [
            MotionStep::Drive(DriveCommand::Forward(100)),
            MotionStep::WaitMs(4000),
            MotionStep::Drive(DriveCommand::Backward(100)),
            MotionStep::WaitMs(4000),
        ]
    );
}

#[test]
fn motor_and_servo_play_swings_steering() {
    let p = motor_and_servo_play_program();
    assert_eq!(p.len(), 10);
    assert_eq!(p[0], MotionStep::ServoDeg(30));
    assert_eq!(p[1], MotionStep::Drive(DriveCommand::Forward(100)));
    assert_eq!(p[3], MotionStep::ServoDeg(-30));
    assert_eq!(p[6], MotionStep::Drive(DriveCommand::Backward(100)));
    let total: u64 = p
        .iter()
        .map(|s| match s {
            MotionStep::WaitMs(ms) => *ms,
            _ => 0,
        })
        .sum();
    assert_eq!(total, 2000);
    for s in &p {
        match s {
            MotionStep::Drive(DriveCommand::Forward(v)) | MotionStep::Drive(DriveCommand::Backward(v)) => {
                assert!(*v <= 100)
            }
            MotionStep::ServoDeg(d) => assert!(-90 <= *d && *d <= 90),
            _ => {}
        }
    }
}

fn run(phase: EchoPhase, event: EchoEvent) -> EchoPhase {
    assert!(is_outcome_of(phase, event));
    step(phase, event)
}

#[test]
fn echo_server_bring_up_retries_join() {
    let mut p = start();
    assert_eq!(action(p), EchoAction::Join);
    p = run(p, EchoEvent::Failed);
    assert_eq!(p, EchoPhase::Joining);
    p = run(p, EchoEvent::Done);
    assert_eq!(action(p), EchoAction::WaitLinkUp);
    p = run(p, EchoEvent::Done);
    assert_eq!(action(p), EchoAction::WaitConfigUp);
    p = run(p, EchoEvent::Done);
    assert_eq!(action(p), EchoAction::OpenSocket { timeout_secs: SOCKET_TIMEOUT_SECS });
    assert_eq!(SOCKET_TIMEOUT_SECS, 10);
    p = run(p, EchoEvent::Done);
    assert_eq!(action(p), EchoAction::SetLed { gpio: STATUS_LED_GPIO, on: false });
    p = run(p, EchoEvent::Done);
    assert_eq!(action(p), EchoAction::Accept { port: ECHO_PORT });
    assert_eq!(ECHO_PORT, 1234);
}

#[test]
fn echo_server_writes_back_each_chunk() {
    let mut p = EchoPhase::Accepting;
    p = run(p, EchoEvent::Done);
    assert_eq!(action(p), EchoAction::SetLed { gpio: 0, on: true });
    p = run(p, EchoEvent::Done);
    assert_eq!(action(p), EchoAction::Read);
    p = run(p, EchoEvent::Received(5));
    assert_eq!(action(p), EchoAction::Write { len: 5 });
    p = run(p, EchoEvent::Done);
    assert_eq!(action(p), EchoAction::Read);
    p = run(p, EchoEvent::Received(BUFFER_LEN));
    assert_eq!(action(p), EchoAction::Write { len: 4096 });
}

#[test]
fn echo_server_starts_over_after_disconnect() {
    assert_eq!(run(EchoPhase::Reading, EchoEvent::Received(0)), EchoPhase::Opening);
    assert_eq!(run(EchoPhase::Reading, EchoEvent::Failed), EchoPhase::Opening);
    assert_eq!(run(EchoPhase::Writing { len: 3 }, EchoEvent::Failed), EchoPhase::Opening);
    assert_eq!(run(EchoPhase::Accepting, EchoEvent::Failed), EchoPhase::Opening);
}

#[test]
fn echo_server_rejects_impossible_outcomes() {
    assert!(!is_outcome_of(EchoPhase::Reading, EchoEvent::Received(BUFFER_LEN + 1)));
    assert!(!is_outcome_of(EchoPhase::Reading, EchoEvent::Done));
    assert!(!is_outcome_of(EchoPhase::Opening, EchoEvent::Failed));
    assert!(!is_outcome_of(EchoPhase::Joining, EchoEvent::Received(1)));
}
