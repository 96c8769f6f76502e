//! Playing a melody on the buzzer: each note sounds for nine tenths of its
//! duration and is followed by a pause of one tenth.
use vstd::prelude::*;

verus! {

/// Integer clock divider of the buzzer's PWM slice.
pub const PWM_DIV_INT: u8 = 64;

/// Duty cycle, in percent, while a note sounds.
pub const SOUNDING_DUTY_PERCENT: u8 = 50;

/// Duty cycle, in percent, during the pause after a note.
pub const SILENT_DUTY_PERCENT: u8 = 0;

/// How a note's duration is split between sound and pause, in milliseconds.
#[derive(Clone, Copy, Debug, PartialEq, Eq, Structural)]
pub struct NoteTiming {
    pub play_ms: u64,
    pub pause_ms: u64,
}

/// One thing to do to the buzzer.
#[derive(Clone, Copy, Debug, PartialEq, Eq, Structural)]
pub enum BuzzerStep {
    /// Reconfigure the PWM slice with this `top` (the note's pitch).
    SetTop(u16),
    /// Set the duty cycle to this percentage.
    SetDutyPercent(u8),
    /// Wait this many milliseconds.
    WaitMs(u64),
}

/// The pause is a tenth of the duration, rounded down; the sound is the rest.
pub open spec fn timing_of(duration_ms: u64) -> NoteTiming {
    NoteTiming {
        play_ms: (duration_ms - duration_ms / 10) as u64,
        pause_ms: (duration_ms / 10) as u64,
    }
}

/// What playing one note does: set its pitch, sound it, wait, silence it, wait.
pub open spec fn note_steps_of(top: u16, duration_ms: u64) -> Seq<BuzzerStep> {
    seq![
        BuzzerStep::SetTop(top),
        BuzzerStep::SetDutyPercent(SOUNDING_DUTY_PERCENT),
        BuzzerStep::WaitMs(timing_of(duration_ms).play_ms),
        BuzzerStep::SetDutyPercent(SILENT_DUTY_PERCENT),
        BuzzerStep::WaitMs(timing_of(duration_ms).pause_ms),
    ]
}

/// Splits a note of `duration_ms` milliseconds into sound and pause.
pub fn note_timing(duration_ms: u64) -> (t: NoteTiming)
    ensures
        t == timing_of(duration_ms),
        t.play_ms + t.pause_ms == duration_ms,
        t.pause_ms * 10 <= duration_ms < (t.pause_ms + 1) * 10,
        t.pause_ms <= t.play_ms,
{
    let pause_ms = duration_ms / 10;
    NoteTiming { play_ms: duration_ms - pause_ms, pause_ms }
}

/// The buzzer steps that play one note of pitch `top` lasting `duration_ms`.
pub fn note_steps(top: u16, duration_ms: u64) -> (steps: [BuzzerStep; 5])
    ensures
        steps@ == note_steps_of(top, duration_ms),
        steps@.len() == 5,
        // The note's own pitch, sounded at half duty for nine tenths of its
        // duration, then silenced for the remaining tenth.
        steps@[0] == BuzzerStep::SetTop(top),
        steps@[1] == BuzzerStep::SetDutyPercent(50),
        steps@[2] == BuzzerStep::WaitMs((duration_ms - duration_ms / 10) as u64),
        steps@[3] == BuzzerStep::SetDutyPercent(0),
        steps@[4] == BuzzerStep::WaitMs(duration_ms / 10),
{
    let t = note_timing(duration_ms);
    let steps = [
        BuzzerStep::SetTop(top),
        BuzzerStep::SetDutyPercent(SOUNDING_DUTY_PERCENT),
        BuzzerStep::WaitMs(t.play_ms),
        BuzzerStep::SetDutyPercent(SILENT_DUTY_PERCENT),
        BuzzerStep::WaitMs(t.pause_ms),
    ];
    assert(steps@ =~= note_steps_of(top, duration_ms));
    steps
}

/// A note first sets its own pitch and sounds it at half duty; its waits add
/// up to its duration, the pause being a tenth of it; every duty cycle set is a
/// valid percentage, and the note ends silent.
pub proof fn lemma_note_lasts_its_duration(top: u16, duration_ms: u64)
    ensures
        ({
            let s = note_steps_of(top, duration_ms);
            &&& s.len() == 5
            &&& s[0] == BuzzerStep::SetTop(top)
            &&& s[1] == BuzzerStep::SetDutyPercent(50)
            &&& s[4] matches BuzzerStep::WaitMs(b) && b * 10 <= duration_ms < (b + 1) * 10
            &&& s[2] matches BuzzerStep::WaitMs(a) && s[4] matches BuzzerStep::WaitMs(b) && a + b == duration_ms
            &&& forall|i: int| 0 <= i < s.len() ==> (#[trigger] s[i] matches BuzzerStep::SetDutyPercent(p) ==> p <= 100)
            &&& s.last() == BuzzerStep::WaitMs(timing_of(duration_ms).pause_ms)
            &&& s[3] == BuzzerStep::SetDutyPercent(0)
        }),
{
}

} // verus!
