//! The Wi-Fi echo server: joins the network, waits for the link and DHCP,
//! then accepts TCP clients one at a time and writes back every chunk of
//! bytes it reads, until the client closes or an error occurs.
//!
//! The server is a state machine: `action` says what to do in a phase, the
//! caller performs it and reports the outcome to `step`, which gives the next
//! phase.
use vstd::prelude::*;

verus! {

/// TCP port the echo server listens on.
pub const ECHO_PORT: u16 = 1234;

/// Inactivity timeout, in seconds, set on every new socket.
pub const SOCKET_TIMEOUT_SECS: u64 = 10;

/// Size of the receive buffer, and so the most bytes one read can return.
pub const BUFFER_LEN: usize = 4096;

/// GPIO of the radio chip that drives the status LED.
pub const STATUS_LED_GPIO: u8 = 0;

/// Where the echo server stands; each phase waits for the outcome of one action.
#[derive(Clone, Copy, Debug, PartialEq, Eq, Structural)]
pub enum EchoPhase {
    /// Joining the Wi-Fi network.
    Joining,
    /// Waiting for the link to come up.
    AwaitingLink,
    /// Waiting for the DHCP configuration.
    AwaitingConfig,
    /// Creating a fresh socket and setting its timeout.
    Opening,
    /// Switching the status LED off.
    ClearingLed,
    /// Waiting for a client to connect.
    Accepting,
    /// Switching the status LED on for the connected client.
    SettingLed,
    /// Reading the next chunk from the client.
    Reading,
    /// Writing back the `len` bytes just read.
    Writing { len: usize },
}

/// What the caller has to do next.
#[derive(Clone, Copy, Debug, PartialEq, Eq, Structural)]
pub enum EchoAction {
    Join,
    WaitLinkUp,
    WaitConfigUp,
    OpenSocket { timeout_secs: u64 },
    SetLed { gpio: u8, on: bool },
    Accept { port: u16 },
    Read,
    Write { len: usize },
}

/// How the last action ended.
#[derive(Clone, Copy, Debug, PartialEq, Eq, Structural)]
pub enum EchoEvent {
    /// The action succeeded (a read reports `Received` instead).
    Done,
    /// The action failed.
    Failed,
    /// A read returned this many bytes; zero means the client closed.
    Received(usize),
}

/// The action performed in each phase.
pub open spec fn action_of(phase: EchoPhase) -> EchoAction {
    match phase {
        EchoPhase::Joining => EchoAction::Join,
        EchoPhase::AwaitingLink => EchoAction::WaitLinkUp,
        EchoPhase::AwaitingConfig => EchoAction::WaitConfigUp,
        EchoPhase::Opening => EchoAction::OpenSocket { timeout_secs: SOCKET_TIMEOUT_SECS },
        EchoPhase::ClearingLed => EchoAction::SetLed { gpio: STATUS_LED_GPIO, on: false },
        EchoPhase::Accepting => EchoAction::Accept { port: ECHO_PORT },
        EchoPhase::SettingLed => EchoAction::SetLed { gpio: STATUS_LED_GPIO, on: true },
        EchoPhase::Reading => EchoAction::Read,
        EchoPhase::Writing { len } => EchoAction::Write { len },
    }
}

/// The outcomes the action of `phase` can have: joining, accepting and
/// writing can fail, a read returns at most `BUFFER_LEN` bytes or fails, and
/// the other actions always complete.
pub open spec fn accepts(phase: EchoPhase, event: EchoEvent) -> bool {
    match phase {
        EchoPhase::Joining | EchoPhase::Accepting | EchoPhase::Writing { .. } =>
            event is Done || event is Failed,
        EchoPhase::Reading => match event {
            EchoEvent::Received(n) => n <= BUFFER_LEN,
            EchoEvent::Failed => true,
            EchoEvent::Done => false,
        },
        _ => event is Done,
    }
}

/// The transition table: a failed join is retried; a failed accept, a closed
/// connection or a failed read or write starts over with a fresh socket.
pub open spec fn next_phase(phase: EchoPhase, event: EchoEvent) -> EchoPhase {
    match phase {
        EchoPhase::Joining => if event is Done { EchoPhase::AwaitingLink } else { EchoPhase::Joining },
        EchoPhase::AwaitingLink => EchoPhase::AwaitingConfig,
        EchoPhase::AwaitingConfig => EchoPhase::Opening,
        EchoPhase::Opening => EchoPhase::ClearingLed,
        EchoPhase::ClearingLed => EchoPhase::Accepting,
        EchoPhase::Accepting => if event is Done { EchoPhase::SettingLed } else { EchoPhase::Opening },
        EchoPhase::SettingLed => EchoPhase::Reading,
        EchoPhase::Reading => match event {
            EchoEvent::Received(n) => if n == 0 { EchoPhase::Opening } else { EchoPhase::Writing { len: n } },
            _ => EchoPhase::Opening,
        },
        EchoPhase::Writing { .. } => if event is Done { EchoPhase::Reading } else { EchoPhase::Opening },
    }
}

/// A pending write never asks for more bytes than a read can return, nor for none.
pub open spec fn well_formed(phase: EchoPhase) -> bool {
    match phase {
        EchoPhase::Writing { len } => 0 < len <= BUFFER_LEN,
        _ => true,
    }
}

/// The phase the server starts in.
pub fn start() -> (phase: EchoPhase)
    ensures
        phase == EchoPhase::Joining,
        well_formed(phase),
{
    EchoPhase::Joining
}

/// The action to perform in `phase`.
pub fn action(phase: EchoPhase) -> (a: EchoAction)
    ensures
        a == action_of(phase),
{
    match phase {
        EchoPhase::Joining => EchoAction::Join,
        EchoPhase::AwaitingLink => EchoAction::WaitLinkUp,
        EchoPhase::AwaitingConfig => EchoAction::WaitConfigUp,
        EchoPhase::Opening => EchoAction::OpenSocket { timeout_secs: SOCKET_TIMEOUT_SECS },
        EchoPhase::ClearingLed => EchoAction::SetLed { gpio: STATUS_LED_GPIO, on: false },
        EchoPhase::Accepting => EchoAction::Accept { port: ECHO_PORT },
        EchoPhase::SettingLed => EchoAction::SetLed { gpio: STATUS_LED_GPIO, on: true },
        EchoPhase::Reading => EchoAction::Read,
        EchoPhase::Writing { len } => EchoAction::Write { len },
    }
}

/// Whether `event` is an outcome the action of `phase` can have.
pub fn is_outcome_of(phase: EchoPhase, event: EchoEvent) -> (b: bool)
    ensures
        b == accepts(phase, event),
        // A write, a join and an accept can each succeed or fail, whatever
        // their arguments; none of them reports received bytes.
        (phase is Writing || phase is Joining || phase is Accepting) ==> (b <==> (event is Done
            || event is Failed)),
        // A read fails or returns at most a buffer's worth of bytes.
        phase is Reading ==> (b <==> (event is Failed || (event matches EchoEvent::Received(n)
            && n <= BUFFER_LEN))),
        // The other actions always complete.
        !(phase is Writing || phase is Joining || phase is Accepting || phase is Reading) ==> (b
            <==> event is Done),
{
    match phase {
        EchoPhase::Joining | EchoPhase::Accepting | EchoPhase::Writing { .. } => match event {
            EchoEvent::Received(_) => false,
            _ => true,
        },
        EchoPhase::Reading => match event {
            EchoEvent::Received(n) => n <= BUFFER_LEN,
            EchoEvent::Failed => true,
            EchoEvent::Done => false,
        },
        _ => match event {
            EchoEvent::Done => true,
            _ => false,
        },
    }
}

/// The phase after the action of `phase` ended with `event`.
pub fn step(phase: EchoPhase, event: EchoEvent) -> (next: EchoPhase)
    requires
        accepts(phase, event),
    ensures
        next == next_phase(phase, event),
        well_formed(phase) ==> well_formed(next),
{
    match phase {
        EchoPhase::Joining => match event {
            EchoEvent::Done => EchoPhase::AwaitingLink,
            _ => EchoPhase::Joining,
        },
        EchoPhase::AwaitingLink => EchoPhase::AwaitingConfig,
        EchoPhase::AwaitingConfig => EchoPhase::Opening,
        EchoPhase::Opening => EchoPhase::ClearingLed,
        EchoPhase::ClearingLed => EchoPhase::Accepting,
        EchoPhase::Accepting => match event {
            EchoEvent::Done => EchoPhase::SettingLed,
            _ => EchoPhase::Opening,
        },
        EchoPhase::SettingLed => EchoPhase::Reading,
        EchoPhase::Reading => match event {
            EchoEvent::Received(n) => if n == 0 {
                EchoPhase::Opening
            } else {
                EchoPhase::Writing { len: n }
            },
            _ => EchoPhase::Opening,
        },
        EchoPhase::Writing { .. } => match event {
            EchoEvent::Done => EchoPhase::Reading,
            _ => EchoPhase::Opening,
        },
    }
}

/// Every chunk read is written back whole: a read of `n > 0` bytes is followed
/// by a write of exactly `n` bytes, after which the server reads again.
pub proof fn lemma_echo_writes_back_what_was_read(n: usize)
    requires
        0 < n <= BUFFER_LEN,
    ensures
        accepts(EchoPhase::Reading, EchoEvent::Received(n)),
        action_of(next_phase(EchoPhase::Reading, EchoEvent::Received(n))) == (EchoAction::Write { len: n }),
        next_phase(next_phase(EchoPhase::Reading, EchoEvent::Received(n)), EchoEvent::Done)
            == EchoPhase::Reading,
{
}

/// Every write the server can ask for, of one to `BUFFER_LEN` bytes, may
/// complete or fail, and reports no received bytes.
pub proof fn lemma_every_write_can_complete(len: usize, n: usize)
    requires
        0 < len <= BUFFER_LEN,
    ensures
        accepts(EchoPhase::Writing { len }, EchoEvent::Done),
        accepts(EchoPhase::Writing { len }, EchoEvent::Failed),
        !accepts(EchoPhase::Writing { len }, EchoEvent::Received(n)),
        next_phase(EchoPhase::Writing { len }, EchoEvent::Done) == EchoPhase::Reading,
        next_phase(EchoPhase::Writing { len }, EchoEvent::Failed) == EchoPhase::Opening,
{
}

/// When every action succeeds, the server joins, waits for the link and for
/// DHCP, opens a socket with the ten second timeout, switches the LED off,
/// accepts on `ECHO_PORT`, switches the LED on, and reads.
pub proof fn lemma_bring_up_sequence()
    ensures
        ({
            let p0 = EchoPhase::Joining;
            let p1 = next_phase(p0, EchoEvent::Done);
            let p2 = next_phase(p1, EchoEvent::Done);
            let p3 = next_phase(p2, EchoEvent::Done);
            let p4 = next_phase(p3, EchoEvent::Done);
            let p5 = next_phase(p4, EchoEvent::Done);
            let p6 = next_phase(p5, EchoEvent::Done);
            let p7 = next_phase(p6, EchoEvent::Done);
            &&& action_of(p0) == EchoAction::Join
            &&& action_of(p1) == EchoAction::WaitLinkUp
            &&& action_of(p2) == EchoAction::WaitConfigUp
            &&& action_of(p3) == (EchoAction::OpenSocket { timeout_secs: 10 })
            &&& action_of(p4) == (EchoAction::SetLed { gpio: 0, on: false })
            &&& action_of(p5) == (EchoAction::Accept { port: 1234 })
            &&& action_of(p6) == (EchoAction::SetLed { gpio: 0, on: true })
            &&& action_of(p7) == EchoAction::Read
            &&& accepts(p0, EchoEvent::Done) && accepts(p1, EchoEvent::Done)
            &&& accepts(p2, EchoEvent::Done) && accepts(p3, EchoEvent::Done)
            &&& accepts(p4, EchoEvent::Done) && accepts(p5, EchoEvent::Done)
            &&& accepts(p6, EchoEvent::Done)
        }),
{
}

/// A failed join is retried until it succeeds; nothing else happens before.
pub proof fn lemma_join_is_retried()
    ensures
        action_of(EchoPhase::Joining) == EchoAction::Join,
        next_phase(EchoPhase::Joining, EchoEvent::Failed) == EchoPhase::Joining,
        next_phase(EchoPhase::Joining, EchoEvent::Done) == EchoPhase::AwaitingLink,
{
}

/// When a connection attempt or a connection ends (failed accept, client
/// closed, failed read or write), the server opens a fresh socket, switches
/// the LED off, and only then accepts the next client on `ECHO_PORT`.
pub proof fn lemma_connection_end_starts_over(phase: EchoPhase, event: EchoEvent)
    requires
        accepts(phase, event),
        phase is Accepting || phase is Reading || phase is Writing,
        event is Failed || event == EchoEvent::Received(0),
    ensures
        next_phase(phase, event) == EchoPhase::Opening,
        action_of(EchoPhase::Opening) == (EchoAction::OpenSocket { timeout_secs: SOCKET_TIMEOUT_SECS }),
        action_of(next_phase(EchoPhase::Opening, EchoEvent::Done))
            == (EchoAction::SetLed { gpio: STATUS_LED_GPIO, on: false }),
        next_phase(next_phase(EchoPhase::Opening, EchoEvent::Done), EchoEvent::Done) == EchoPhase::Accepting,
        action_of(EchoPhase::Accepting) == (EchoAction::Accept { port: ECHO_PORT }),
{
}

/// The LED is switched on only right after a client was accepted, and a client
/// is accepted only right after the LED was switched off; reading starts only
/// once the LED is on, and resumes only after a completed write.
pub proof fn lemma_led_brackets_each_client(phase: EchoPhase, event: EchoEvent)
    requires
        accepts(phase, event),
    ensures
        next_phase(phase, event) is SettingLed ==> phase is Accepting && event is Done,
        next_phase(phase, event) is Accepting ==> phase is ClearingLed,
        next_phase(phase, event) is Reading ==> phase is SettingLed || (phase is Writing && event is Done),
{
}

/// Every transition keeps the phase well formed, so a pending write is always
/// of between one and `BUFFER_LEN` bytes.
pub proof fn lemma_step_keeps_well_formed(phase: EchoPhase, event: EchoEvent)
    requires
        well_formed(phase),
        accepts(phase, event),
    ensures
        well_formed(next_phase(phase, event)),
{
}

} // verus!
