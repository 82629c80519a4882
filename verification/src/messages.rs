//! The control messages exchanged between the parent and the monitor, and
//! the plain-value models of the I/O outcomes the two state machines react
//! to.

use vstd::prelude::*;

verus! {

/// Message sent from the parent to the monitor over the backchannel.
#[derive(Clone, Copy, Debug, PartialEq, Eq, Structural)]
pub enum MonitorMessage {
    /// One-shot green light: the monitor may fork the command. Always the
    /// first message on the wire.
    ExecCommand,
    /// Forward this signal number (or an internal continue token) to the
    /// command.
    Signal(i32),
}

/// Message sent from the monitor to the parent over the backchannel.
#[derive(Clone, Copy, Debug, PartialEq, Eq, Structural)]
pub enum ParentMessage {
    /// The command was forked and has this PID.
    CommandPid(i32),
    /// The command exited normally with this status code.
    CommandExit(i32),
    /// The command was terminated by this signal.
    CommandSignal(i32),
    /// The command was stopped; carries the raw wait status.
    CommandStatus(i32),
    /// An operating-system error, as a raw errno value.
    IoError(i32),
    /// A framing underflow was detected while reading.
    ShortRead,
}

/// Why the executed command finished.
#[derive(Clone, Copy, Debug, PartialEq, Eq, Structural)]
pub enum ExitReason {
    /// Normal exit with a status code.
    Code(i32),
    /// Terminated by a signal.
    Signal(i32),
}

/// Plain-value model of an operating-system I/O error, as the state
/// machines need to tell them apart.
#[derive(Clone, Copy, Debug, PartialEq, Eq, Structural)]
pub enum IoFault {
    /// An error with a known raw errno value.
    Errno(i32),
    /// End of file where more bytes were owed: the peer is gone, or a
    /// frame was cut short.
    Eof,
    /// The peer's write side is gone.
    BrokenPipe,
    /// Any other error, with no errno to report.
    Other,
}

/// What one receive attempt on a channel came to.
#[derive(Clone, Copy, Debug, PartialEq, Eq, Structural)]
pub enum RecvOutcome<M> {
    /// The call was interrupted by a signal; try again later.
    Interrupted,
    /// The call failed.
    Failed(IoFault),
    /// A whole message arrived.
    Received(M),
}

/// What one send attempt on the backchannel came to.
#[derive(Clone, Copy, Debug, PartialEq, Eq, Structural)]
pub enum SendOutcome {
    /// The message went out whole.
    Sent,
    /// The peer is gone.
    BrokenPipe,
    /// A transient failure; keep the message and try again later.
    Retry,
}

/// Plain-value model of a reaped wait status.
#[derive(Clone, Copy, Debug, PartialEq, Eq, Structural)]
pub enum WaitOutcome {
    /// The process exited normally with this code.
    Exited(i32),
    /// The process was terminated by this signal.
    Signaled(i32),
    /// The process was stopped by `signal`; `raw` is the raw wait status
    /// word, which is what crosses the backchannel.
    Stopped { signal: i32, raw: i32 },
    /// The process resumed execution.
    Continued,
}

/// A delivered signal, as the self-pipe hands it to the event loop: the
/// number alone is not enough, the proxy needs the sender to detect
/// self-terminating loops.
#[derive(Clone, Copy, Debug, PartialEq, Eq, Structural)]
pub struct SignalInfo {
    /// The signal number.
    pub signal: i32,
    /// PID of the process that sent the signal; zero when the kernel sent
    /// it.
    pub signaler_pid: i32,
    /// Whether a user process raised it (as opposed to the kernel).
    pub user_signaled: bool,
}

/// The final message the monitor owes the parent for a reaped command:
/// exit and termination statuses map to the two lifecycle messages, a stop
/// status to a status report. A `Continued` status never stops the loop,
/// so it owes nothing.
pub open spec fn spec_wait_to_message(w: WaitOutcome) -> Option<ParentMessage> {
    match w {
        WaitOutcome::Exited(code) => Some(ParentMessage::CommandExit(code)),
        WaitOutcome::Signaled(signal) => Some(ParentMessage::CommandSignal(signal)),
        WaitOutcome::Stopped { signal: _, raw } => Some(ParentMessage::CommandStatus(raw)),
        WaitOutcome::Continued => None,
    }
}

/// Exec form of [`spec_wait_to_message`].
pub fn wait_to_message(w: &WaitOutcome) -> (m: Option<ParentMessage>)
    ensures
        m == spec_wait_to_message(*w),
{
    match w {
        WaitOutcome::Exited(code) => Some(ParentMessage::CommandExit(*code)),
        WaitOutcome::Signaled(signal) => Some(ParentMessage::CommandSignal(*signal)),
        WaitOutcome::Stopped { signal: _, raw } => Some(ParentMessage::CommandStatus(*raw)),
        WaitOutcome::Continued => None,
    }
}

/// The message the monitor can still send when its loop broke on an I/O
/// fault: a known errno travels as such, a framing underflow as a short
/// read; of the rest nothing can be said on the wire.
pub open spec fn spec_fault_to_message(f: IoFault) -> Option<ParentMessage> {
    match f {
        IoFault::Errno(code) => Some(ParentMessage::IoError(code)),
        IoFault::Eof => Some(ParentMessage::ShortRead),
        IoFault::BrokenPipe => None,
        IoFault::Other => None,
    }
}

/// Exec form of [`spec_fault_to_message`].
pub fn fault_to_message(f: &IoFault) -> (m: Option<ParentMessage>)
    ensures
        m == spec_fault_to_message(*f),
{
    match f {
        IoFault::Errno(code) => Some(ParentMessage::IoError(*code)),
        IoFault::Eof => Some(ParentMessage::ShortRead),
        IoFault::BrokenPipe => None,
        IoFault::Other => None,
    }
}

} // verus!
