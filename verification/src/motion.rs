//! The motor and servo demonstration routines: fixed programs of drive
//! commands, servo positions and waits that the firmware repeats forever.
use vstd::prelude::*;

verus! {

/// A command for the TB6612FNG motor driver; speeds are percentages.
#[derive(Clone, Copy, Debug, PartialEq, Eq, Structural)]
pub enum DriveCommand {
    Forward(u8),
    Backward(u8),
    Brake,
    Stop,
}

/// One step of a motion program.
#[derive(Clone, Copy, Debug, PartialEq, Eq, Structural)]
pub enum MotionStep {
    /// Send this command to the motor driver.
    Drive(DriveCommand),
    /// Move the steering servo to this angle, in degrees.
    ServoDeg(i16),
    /// Wait this many milliseconds.
    WaitMs(u64),
}

/// Full speed of the demonstration routines, in percent.
pub const DEMO_SPEED: u8 = 100;

/// Steering amplitude of the combined demonstration, in degrees.
pub const DEMO_STEER_DEG: i16 = 30;

/// The driver accepts the command: a speed is at most 100 percent.
pub open spec fn command_valid(c: DriveCommand) -> bool {
    match c {
        DriveCommand::Forward(s) | DriveCommand::Backward(s) => s <= 100,
        _ => true,
    }
}

/// Every step can be carried out: drive commands are valid and servo angles
/// lie within the servo's range of plus or minus 90 degrees.
pub open spec fn program_valid(p: Seq<MotionStep>) -> bool {
    forall|i: int| 0 <= i < p.len() ==> match #[trigger] p[i] {
        MotionStep::Drive(c) => command_valid(c),
        MotionStep::ServoDeg(d) => -90 <= d <= 90,
        MotionStep::WaitMs(_) => true,
    }
}

/// The time one pass through a program takes.
pub open spec fn total_wait_ms(p: Seq<MotionStep>) -> int
    decreases p.len(),
{
    if p.len() == 0 {
        0
    } else {
        total_wait_ms(p.drop_last()) + match p.last() {
            MotionStep::WaitMs(ms) => ms as int,
            _ => 0,
        }
    }
}

/// Drive forward for four seconds, then backward for four seconds.
pub open spec fn motor_play_steps() -> Seq<MotionStep> {
    seq![
        MotionStep::Drive(DriveCommand::Forward(DEMO_SPEED)),
        MotionStep::WaitMs(4000),
        MotionStep::Drive(DriveCommand::Backward(DEMO_SPEED)),
        MotionStep::WaitMs(4000),
    ]
}

/// Drive forward, then backward, swinging the steering from one side to the
/// other every half second.
pub open spec fn motor_and_servo_play_steps() -> Seq<MotionStep> {
    seq![
        MotionStep::ServoDeg(DEMO_STEER_DEG),
        MotionStep::Drive(DriveCommand::Forward(DEMO_SPEED)),
        MotionStep::WaitMs(500),
        MotionStep::ServoDeg((-DEMO_STEER_DEG) as i16),
        MotionStep::WaitMs(500),
        MotionStep::ServoDeg(DEMO_STEER_DEG),
        MotionStep::Drive(DriveCommand::Backward(DEMO_SPEED)),
        MotionStep::WaitMs(500),
        MotionStep::ServoDeg((-DEMO_STEER_DEG) as i16),
        MotionStep::WaitMs(500),
    ]
}

/// Starting at `h`: steer to 30 degrees, send `c`, wait half a second, steer
/// to -30 degrees, wait half a second.
pub open spec fn swing_drive_half(p: Seq<MotionStep>, h: int, c: DriveCommand) -> bool {
    &&& h + 5 <= p.len()
    &&& p[h] == MotionStep::ServoDeg(30i16)
    &&& p[h + 1] == MotionStep::Drive(c)
    &&& p[h + 2] == MotionStep::WaitMs(500)
    &&& p[h + 3] == MotionStep::ServoDeg(-30i16)
    &&& p[h + 4] == MotionStep::WaitMs(500)
}

/// The combined demonstration drives forward for one second, then backward for
/// one second; before each drive command the steering goes to 30 degrees, and
/// half a second after it to -30 degrees; every wait is half a second.
pub proof fn lemma_motor_and_servo_play_shape()
    ensures
        motor_and_servo_play_steps().len() == 10,
        swing_drive_half(motor_and_servo_play_steps(), 0, DriveCommand::Forward(100)),
        swing_drive_half(motor_and_servo_play_steps(), 5, DriveCommand::Backward(100)),
        forall|i: int| 0 <= i < motor_and_servo_play_steps().len()
            && #[trigger] motor_and_servo_play_steps()[i] is WaitMs
            ==> motor_and_servo_play_steps()[i] == MotionStep::WaitMs(500),
{
}

/// The motor demonstration drives forward at full speed for four seconds, then
/// backward at full speed for four seconds.
pub proof fn lemma_motor_play_shape()
    ensures
        motor_play_steps()
            =~= seq![
            MotionStep::Drive(DriveCommand::Forward(100)),
            MotionStep::WaitMs(4000),
            MotionStep::Drive(DriveCommand::Backward(100)),
            MotionStep::WaitMs(4000),
        ],
{
}

/// One pass of the motor demonstration.
pub fn motor_play_program() -> (p: [MotionStep; 4])
    ensures
        p@ == motor_play_steps(),
        p@.len() == 4,
        p@[0] == MotionStep::Drive(DriveCommand::Forward(100)),
        p@[1] == MotionStep::WaitMs(4000),
        p@[2] == MotionStep::Drive(DriveCommand::Backward(100)),
        p@[3] == MotionStep::WaitMs(4000),
        program_valid(p@),
        total_wait_ms(p@) == 8000,
{
    let p = [
        MotionStep::Drive(DriveCommand::Forward(DEMO_SPEED)),
        MotionStep::WaitMs(4000),
        MotionStep::Drive(DriveCommand::Backward(DEMO_SPEED)),
        MotionStep::WaitMs(4000),
    ];
    proof {
        assert(p@ =~= motor_play_steps());
        reveal_with_fuel(total_wait_ms, 5);
    }
    p
}

/// One pass of the motor and servo demonstration.
pub fn motor_and_servo_play_program() -> (p: [MotionStep; 10])
    ensures
        p@ == motor_and_servo_play_steps(),
        swing_drive_half(p@, 0, DriveCommand::Forward(100)),
        swing_drive_half(p@, 5, DriveCommand::Backward(100)),
        p@.len() == 10,
        forall|i: int| 0 <= i < p@.len() && #[trigger] p@[i] is WaitMs ==> p@[i] == MotionStep::WaitMs(500),
        program_valid(p@),
        total_wait_ms(p@) == 2000,
{
    let p = [
        MotionStep::ServoDeg(DEMO_STEER_DEG),
        MotionStep::Drive(DriveCommand::Forward(DEMO_SPEED)),
        MotionStep::WaitMs(500),
        MotionStep::ServoDeg(-DEMO_STEER_DEG),
        MotionStep::WaitMs(500),
        MotionStep::ServoDeg(DEMO_STEER_DEG),
        MotionStep::Drive(DriveCommand::Backward(DEMO_SPEED)),
        MotionStep::WaitMs(500),
        MotionStep::ServoDeg(-DEMO_STEER_DEG),
        MotionStep::WaitMs(500),
    ];
    proof {
        assert(p@ =~= motor_and_servo_play_steps());
        reveal_with_fuel(total_wait_ms, 11);
    }
    p
}

} // verus!
