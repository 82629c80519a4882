//! The parent's decisions.
//!
//! The parent owns the user's terminal and the PTY leader, relays bytes
//! between the two, proxies user signals to the monitor over the
//! backchannel and consumes the monitor's lifecycle messages. It never
//! writes the backchannel directly: outbound messages wait in a queue and
//! leave only when the channel reports itself writable, so the two
//! processes cannot deadlock on each other. Every decision between
//! syscalls is verified here for every outcome the caller can feed in.

use vstd::prelude::*;

use std::collections::VecDeque;

use crate::event::{LoopControl, LoopStatus, StopReason};
use crate::messages::{
    ExitReason, IoFault, MonitorMessage, ParentMessage, RecvOutcome, SendOutcome, SignalInfo,
    WaitOutcome,
};
use crate::signals::SignalTable;

verus! {

/// Why the parent's loop ended on purpose.
#[derive(Clone, Copy, Debug, PartialEq, Eq, Structural)]
pub enum ParentExit {
    /// The backchannel reached end of file: the monitor is gone. Treated
    /// as a loop exit, not a break, so a final message already read is
    /// still honoured; the caller turns it into an error.
    Backchannel(IoFault),
    /// The command finished with this reason.
    Command(ExitReason),
}

/// What the parent does with one signal it caught.
#[derive(Clone, Copy, Debug, PartialEq, Eq, Structural)]
pub enum ParentSignalDecision {
    /// Drop it: the monitor is gone, it is one of the signals the parent
    /// absorbs, or it would loop back into the command.
    Ignored,
    /// It was a child-status signal: reap the monitor, then report the
    /// wait outcome through [`ParentState::handle_sigchld`].
    ReapMonitor { pid: i32 },
    /// A forward message was appended to the outbound queue.
    Scheduled,
}

/// The parent's view of the session.
pub struct ParentState {
    /// PID of the monitor; `Some` exactly as long as it has not been
    /// reaped.
    pub monitor_pid: Option<i32>,
    /// The parent's own PID; signals raised by its own group are not
    /// proxied back out.
    pub sudo_pid: i32,
    /// PID of the command, once the monitor has reported it.
    pub command_pid: Option<i32>,
    /// Outbound messages waiting for the backchannel to become writable.
    pub message_queue: VecDeque<MonitorMessage>,
    /// The platform's signal numbers.
    pub sigs: SignalTable,
}

/// A signal sent by `signaler_pid` is self-terminating for the parent when
/// it came from the command itself, from the command's group, or from the
/// parent's own group: forwarding any of those would loop. `signaler_pgrp`
/// is the group the caller looked up for the signaler, `None` when the
/// lookup failed.
pub open spec fn spec_parent_self_terminating(
    signaler_pid: i32,
    command_pid: Option<i32>,
    sudo_pid: i32,
    signaler_pgrp: Option<i32>,
) -> bool {
    signaler_pid != 0 && (Some(signaler_pid) == command_pid || match signaler_pgrp {
        Some(g) => Some(g) == command_pid || g == sudo_pid,
        None => false,
    })
}

/// The parent's state as the contracts see it: the queue as the sequence
/// it holds.
pub struct ParentModel {
    /// PID of the monitor; `Some` exactly as long as it has not been
    /// reaped.
    pub monitor_pid: Option<i32>,
    /// The parent's own PID.
    pub sudo_pid: i32,
    /// PID of the command, once the monitor has reported it.
    pub command_pid: Option<i32>,
    /// The outbound messages, front first.
    pub queue: Seq<MonitorMessage>,
    /// The platform's signal numbers.
    pub sigs: SignalTable,
}

/// What the parent does with one signal it caught.
pub open spec fn spec_parent_on_signal(
    st: ParentModel,
    info: SignalInfo,
    signaler_pgrp: Option<i32>,
) -> ParentSignalDecision {
    match st.monitor_pid {
        Option::None => ParentSignalDecision::Ignored,
        Option::Some(pid) => {
            if info.signal == st.sigs.sigchld {
                ParentSignalDecision::ReapMonitor { pid }
            } else if info.signal == st.sigs.sigcont || info.signal == st.sigs.sigwinch {
                ParentSignalDecision::Ignored
            } else if info.user_signaled && spec_parent_self_terminating(
                info.signaler_pid,
                st.command_pid,
                st.sudo_pid,
                signaler_pgrp,
            ) {
                ParentSignalDecision::Ignored
            } else {
                ParentSignalDecision::Scheduled
            }
        },
    }
}

/// Self-termination filter, parent side: a user signal whose sender is the
/// command, a member of the command's group or of the parent's own group
/// is never forwarded to the monitor.
pub proof fn lemma_parent_filters_self_terminating(
    st: ParentModel,
    info: SignalInfo,
    signaler_pgrp: Option<i32>,
)
    requires
        info.user_signaled,
        spec_parent_self_terminating(info.signaler_pid, st.command_pid, st.sudo_pid, signaler_pgrp),
    ensures
        spec_parent_on_signal(st, info, signaler_pgrp) != ParentSignalDecision::Scheduled,
{
}

impl ParentState {
    /// This state, as the contracts see it.
    pub open spec fn view(&self) -> ParentModel {
        ParentModel {
            monitor_pid: self.monitor_pid,
            sudo_pid: self.sudo_pid,
            command_pid: self.command_pid,
            queue: self.message_queue@,
            sigs: self.sigs,
        }
    }

    /// The signal table is sound and the queue holds forwarded signals
    /// only: the green light leaves once, before the queue exists.
    pub open spec fn wf(&self) -> bool {
        &&& self.sigs.wf()
        &&& forall|i: int|
            0 <= i < self.message_queue@.len() ==> self.message_queue@[i] is Signal
    }

    /// The state right after the monitor was forked and the green light
    /// was sent: the monitor is alive, no command PID is known yet, and
    /// nothing waits to be written.
    pub fn new(monitor_pid: i32, sudo_pid: i32, sigs: SignalTable) -> (st: Self)
        requires
            sigs.wf(),
        ensures
            st.wf(),
            st.monitor_pid == Some(monitor_pid),
            st.sudo_pid == sudo_pid,
            st.command_pid is None,
            st.message_queue@ == Seq::<MonitorMessage>::empty(),
            st.sigs == sigs,
    {
        ParentState {
            monitor_pid: Some(monitor_pid),
            sudo_pid,
            command_pid: None,
            message_queue: VecDeque::new(),
            sigs,
        }
    }

    /// Decides if the signal sent by the process with `signaler_pid` PID
    /// is self-terminating.
    pub fn is_self_terminating(&self, signaler_pid: i32, signaler_pgrp: Option<i32>) -> (r: bool)
        ensures
            r == spec_parent_self_terminating(
                signaler_pid,
                self.command_pid,
                self.sudo_pid,
                signaler_pgrp,
            ),
    {
        if signaler_pid != 0 {
            if let Some(command_pid) = self.command_pid {
                if signaler_pid == command_pid {
                    return true;
                }
            }
            if let Some(signaler_grp) = signaler_pgrp {
                if let Some(command_pid) = self.command_pid {
                    if signaler_grp == command_pid {
                        return true;
                    }
                }
                if signaler_grp == self.sudo_pid {
                    return true;
                }
            }
        }
        false
    }

    /// React to one receive attempt on the backchannel, following the
    /// message table: the command's PID is recorded once, exit and
    /// termination messages end the loop with the command's reason, a
    /// reported errno or a short read breaks it, end of file means the
    /// monitor is gone and ends it gracefully, a stop notification and an
    /// interrupted read change nothing.
    pub fn on_message_received(
        &mut self,
        outcome: &RecvOutcome<ParentMessage>,
        control: &mut LoopControl<IoFault, ParentExit>,
    )
        ensures
            final(self).monitor_pid == old(self).monitor_pid,
            final(self).sudo_pid == old(self).sudo_pid,
            final(self).message_queue == old(self).message_queue,
            final(self).sigs == old(self).sigs,
            final(self).command_pid == (match outcome {
                RecvOutcome::Received(ParentMessage::CommandPid(pid)) => Some(*pid),
                _ => old(self).command_pid,
            }),
            final(control)@ == (match outcome {
                RecvOutcome::Interrupted => old(control)@,
                RecvOutcome::Failed(IoFault::Eof) => if old(control).spec_got_break() {
                    old(control)@
                } else {
                    (LoopStatus::Stop(StopReason::Exit(ParentExit::Backchannel(IoFault::Eof))))
                },
                RecvOutcome::Failed(f) => if old(control).spec_got_break() {
                    old(control)@
                } else {
                    (LoopStatus::Stop(StopReason::Break(*f)))
                },
                RecvOutcome::Received(m) => match m {
                    ParentMessage::CommandExit(code) => if old(control).spec_got_break() {
                        old(control)@
                    } else {
                        (LoopStatus::Stop(StopReason::Exit(ParentExit::Command(ExitReason::Code(
                            *code,
                        )))))
                    },
                    ParentMessage::CommandSignal(s) => if old(control).spec_got_break() {
                        old(control)@
                    } else {
                        (LoopStatus::Stop(StopReason::Exit(ParentExit::Command(
                            ExitReason::Signal(*s),
                        ))))
                    },
                    ParentMessage::IoError(code) => if old(control).spec_got_break() {
                        old(control)@
                    } else {
                        (LoopStatus::Stop(StopReason::Break(IoFault::Errno(*code))))
                    },
                    ParentMessage::ShortRead => if old(control).spec_got_break() {
                        old(control)@
                    } else {
                        (LoopStatus::Stop(StopReason::Break(IoFault::Eof)))
                    },
                    _ => old(control)@,
                },
            }),
    {
        match outcome {
            RecvOutcome::Interrupted => {},
            RecvOutcome::Failed(f) => {
                if matches!(f, IoFault::Eof) {
                    control.set_exit(ParentExit::Backchannel(IoFault::Eof));
                } else {
                    if !control.got_break() {
                        control.set_break(*f);
                    }
                }
            },
            RecvOutcome::Received(m) => {
                match m {
                    ParentMessage::CommandPid(pid) => {
                        self.command_pid = Some(*pid);
                    },
                    ParentMessage::CommandExit(code) => {
                        control.set_exit(ParentExit::Command(ExitReason::Code(*code)));
                    },
                    ParentMessage::CommandSignal(s) => {
                        control.set_exit(ParentExit::Command(ExitReason::Signal(*s)));
                    },
                    ParentMessage::CommandStatus(_) => {},
                    ParentMessage::IoError(code) => {
                        control.set_break(IoFault::Errno(*code));
                    },
                    ParentMessage::ShortRead => {
                        control.set_break(IoFault::Eof);
                    },
                }
            },
        }
    }

    /// Append a forward message for this signal to the outbound queue; it
    /// leaves once the backchannel is writable.
    pub fn schedule_signal(&mut self, signal: i32)
        ensures
            final(self).message_queue@ == old(self).message_queue@.push(
                MonitorMessage::Signal(signal),
            ),
            final(self).monitor_pid == old(self).monitor_pid,
            final(self).sudo_pid == old(self).sudo_pid,
            final(self).command_pid == old(self).command_pid,
            final(self).sigs == old(self).sigs,
            old(self).wf() ==> final(self).wf(),
    {
        self.message_queue.push_back(MonitorMessage::Signal(signal));
    }

    /// What the parent does with one signal it caught: nothing once the
    /// monitor is gone; reap on a child-status signal; absorb continue and
    /// window-size signals (the terminal is handled locally); drop a user
    /// signal that would loop back; schedule everything else for the
    /// monitor.
    pub fn on_signal(&mut self, info: &SignalInfo, signaler_pgrp: Option<i32>) -> (d:
        ParentSignalDecision)
        ensures
            d == spec_parent_on_signal(old(self)@, *info, signaler_pgrp),
            final(self).monitor_pid == old(self).monitor_pid,
            final(self).sudo_pid == old(self).sudo_pid,
            final(self).command_pid == old(self).command_pid,
            final(self).sigs == old(self).sigs,
            final(self).message_queue@ == (if d is Scheduled {
                old(self).message_queue@.push(MonitorMessage::Signal(info.signal))
            } else {
                old(self).message_queue@
            }),
            old(self).wf() ==> final(self).wf(),
    {
        match self.monitor_pid {
            None => ParentSignalDecision::Ignored,
            Some(pid) => {
                if info.signal == self.sigs.sigchld {
                    ParentSignalDecision::ReapMonitor { pid }
                } else if info.signal == self.sigs.sigcont || info.signal == self.sigs.sigwinch {
                    ParentSignalDecision::Ignored
                } else if info.user_signaled && self.is_self_terminating(
                    info.signaler_pid,
                    signaler_pgrp,
                ) {
                    ParentSignalDecision::Ignored
                } else {
                    self.schedule_signal(info.signal);
                    ParentSignalDecision::Scheduled
                }
            },
        }
    }

    /// React to the wait status of the reaped monitor: exit and
    /// termination mark it gone — the loop still runs until the
    /// backchannel reaches end of file, so a final message is not lost — a
    /// stop or resume of the monitor changes nothing.
    pub fn handle_sigchld(&mut self, wait: &WaitOutcome)
        ensures
            final(self).monitor_pid == (match wait {
                WaitOutcome::Exited(_) | WaitOutcome::Signaled(_) => None,
                _ => old(self).monitor_pid,
            }),
            final(self).sudo_pid == old(self).sudo_pid,
            final(self).command_pid == old(self).command_pid,
            final(self).message_queue == old(self).message_queue,
            final(self).sigs == old(self).sigs,
            old(self).wf() ==> final(self).wf(),
    {
        match wait {
            WaitOutcome::Exited(_) | WaitOutcome::Signaled(_) => {
                self.monitor_pid = None;
            },
            WaitOutcome::Stopped { .. } => {},
            WaitOutcome::Continued => {},
        }
    }

    /// The message to write next, once the backchannel is writable.
    pub fn next_outbound(&self) -> (m: Option<MonitorMessage>)
        ensures
            m == (if self.message_queue@.len() > 0 {
                Some(self.message_queue@[0])
            } else {
                Option::<MonitorMessage>::None
            }),
    {
        if self.message_queue.len() > 0 {
            Some(self.message_queue[0])
        } else {
            None
        }
    }

    /// Account for one attempt to send the front of the queue: a sent
    /// message leaves the queue, a gone peer breaks the loop with the
    /// message kept, a transient failure keeps it for the next round.
    pub fn message_sent(
        &mut self,
        outcome: &SendOutcome,
        control: &mut LoopControl<IoFault, ParentExit>,
    )
        requires
            old(self).message_queue@.len() > 0,
        ensures
            final(self).monitor_pid == old(self).monitor_pid,
            final(self).sudo_pid == old(self).sudo_pid,
            final(self).command_pid == old(self).command_pid,
            final(self).sigs == old(self).sigs,
            final(self).message_queue@ == (match outcome {
                SendOutcome::Sent => old(self).message_queue@.skip(1),
                _ => old(self).message_queue@,
            }),
            final(control)@ == (match outcome {
                SendOutcome::BrokenPipe => if old(control).spec_got_break() {
                    old(control)@
                } else {
                    (LoopStatus::Stop(StopReason::Break(IoFault::BrokenPipe)))
                },
                _ => old(control)@,
            }),
            old(self).wf() ==> final(self).wf(),
    {
        match outcome {
            SendOutcome::Sent => {
                let _front = self.message_queue.pop_front();
                assert(self.message_queue@ =~= old(self).message_queue@.skip(1));
            },
            SendOutcome::BrokenPipe => {
                control.set_break(IoFault::BrokenPipe);
            },
            SendOutcome::Retry => {},
        }
    }
}

/// What `exec_pty` hands back for a stopped parent loop: the command's
/// exit reason on a normal end, the underlying fault on a break or on a
/// backchannel end of file.
pub fn exit_outcome(reason: &StopReason<IoFault, ParentExit>) -> (r: Result<ExitReason, IoFault>)
    ensures
        match reason {
            StopReason::Break(f) => r == Err::<ExitReason, IoFault>(*f),
            StopReason::Exit(ParentExit::Backchannel(f)) => r == Err::<ExitReason, IoFault>(*f),
            StopReason::Exit(ParentExit::Command(e)) => r == Ok::<ExitReason, IoFault>(*e),
        },
{
    match reason {
        StopReason::Break(f) => Err(*f),
        StopReason::Exit(ParentExit::Backchannel(f)) => Err(*f),
        StopReason::Exit(ParentExit::Command(e)) => Ok(*e),
    }
}

} // verus!
