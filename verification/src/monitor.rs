//! The monitor's decisions.
//!
//! The monitor is the session leader that owns the PTY follower, forks the
//! command and reaps it. Everything it does between syscalls is decided
//! here: which signals reach the command, how a reaped wait status is
//! reported upstream, and which message closes the session. The caller
//! performs the syscalls and feeds their outcomes in as plain values; every
//! decision is verified for every outcome.

use vstd::prelude::*;

use crate::event::{LoopControl, LoopStatus, StopReason};
use crate::messages::{
    IoFault, MonitorMessage, ParentMessage, RecvOutcome, SignalInfo, WaitOutcome,
    spec_fault_to_message, spec_wait_to_message, fault_to_message, wait_to_message,
};
use crate::signals::{SignalTable, SIGCONT_BG, SIGCONT_FG};

verus! {

/// What the monitor asks the operating system to do about one signal.
#[derive(Clone, Copy, Debug, PartialEq, Eq, Structural)]
pub enum MonitorAction {
    /// Nothing to do.
    Idle,
    /// Begin graceful termination of the command.
    Terminate { pid: i32 },
    /// Put `pgrp` (the command's group) in the foreground of the follower,
    /// then deliver `cont` (the platform's continue signal) to the command.
    ForegroundResume { pid: i32, pgrp: i32, cont: i32 },
    /// Put `pgrp` (the monitor's own group) in the foreground of the
    /// follower, then deliver `cont` to the command.
    BackgroundResume { pid: i32, pgrp: i32, cont: i32 },
    /// Deliver `signal` to the command as it is.
    Deliver { pid: i32, signal: i32 },
}

/// What the monitor does with one delivered signal.
#[derive(Clone, Copy, Debug, PartialEq, Eq, Structural)]
pub enum MonitorSignalDecision {
    /// Drop it: the command is gone already, or the signal would loop back.
    Ignore,
    /// It was a child-status signal: reap the command, then report the
    /// wait outcome through [`MonitorState::handle_sigchld`].
    ReapCommand { pid: i32 },
    /// Forward it as this action.
    Act(MonitorAction),
}

/// The monitor's view of the session.
pub struct MonitorState {
    /// PID of the command; `Some` exactly as long as it has not been
    /// reaped.
    pub command_pid: Option<i32>,
    /// The command's process group: its PID at first, later whatever group
    /// owned the follower when the command last stopped.
    pub command_pgrp: i32,
    /// The monitor's own process group, restored on the follower at
    /// teardown.
    pub monitor_pgrp: i32,
    /// The platform's signal numbers.
    pub sigs: SignalTable,
}

/// A signal sent by `signaler_pid` is self-terminating when it came from
/// the command itself or from a process of the command's group; forwarding
/// it would loop it straight back. `signaler_pgrp` is the group the caller
/// looked up for the signaler, `None` when the lookup failed.
pub open spec fn spec_self_terminating(
    signaler_pid: i32,
    command_pid: i32,
    command_pgrp: i32,
    signaler_pgrp: Option<i32>,
) -> bool {
    signaler_pid != 0 && (signaler_pid == command_pid || signaler_pgrp == Some(command_pgrp))
}

/// Decides if the signal sent by the process with `signaler_pid` PID is
/// self-terminating.
pub fn is_self_terminating(
    signaler_pid: i32,
    command_pid: i32,
    command_pgrp: i32,
    signaler_pgrp: Option<i32>,
) -> (r: bool)
    ensures
        r == spec_self_terminating(signaler_pid, command_pid, command_pgrp, signaler_pgrp),
{
    if signaler_pid != 0 {
        if signaler_pid == command_pid {
            return true;
        }
        if let Some(grp_leader) = signaler_pgrp {
            if grp_leader == command_pgrp {
                return true;
            }
        }
    }
    false
}

/// The monitor's policy table for a signal bound for the command.
pub open spec fn spec_send_signal(st: MonitorState, signal: i32, pid: i32) -> MonitorAction {
    if signal == st.sigs.sigalrm {
        MonitorAction::Terminate { pid }
    } else if signal == SIGCONT_FG {
        MonitorAction::ForegroundResume { pid, pgrp: st.command_pgrp, cont: st.sigs.sigcont }
    } else if signal == SIGCONT_BG {
        MonitorAction::BackgroundResume { pid, pgrp: st.monitor_pgrp, cont: st.sigs.sigcont }
    } else {
        MonitorAction::Deliver { pid, signal }
    }
}

/// What the monitor does with one signal it caught, given the signaler's
/// process group as looked up by the caller.
pub open spec fn spec_on_signal(
    st: MonitorState,
    info: SignalInfo,
    signaler_pgrp: Option<i32>,
) -> MonitorSignalDecision {
    match st.command_pid {
        Option::None => MonitorSignalDecision::Ignore,
        Option::Some(pid) => {
            if info.signal == st.sigs.sigchld {
                MonitorSignalDecision::ReapCommand { pid }
            } else if info.user_signaled && spec_self_terminating(
                info.signaler_pid,
                pid,
                st.command_pgrp,
                signaler_pgrp,
            ) {
                MonitorSignalDecision::Ignore
            } else {
                MonitorSignalDecision::Act(spec_send_signal(st, info.signal, pid))
            }
        },
    }
}

/// Self-termination filter, monitor side: a user signal whose sender is
/// the command or a member of the command's group is never forwarded; the
/// monitor drops it on the floor.
pub proof fn lemma_monitor_filters_self_terminating(
    st: MonitorState,
    info: SignalInfo,
    signaler_pgrp: Option<i32>,
)
    requires
        info.user_signaled,
        info.signal != st.sigs.sigchld,
        st.command_pid matches Some(pid) ==> spec_self_terminating(
            info.signaler_pid,
            pid,
            st.command_pgrp,
            signaler_pgrp,
        ),
    ensures
        spec_on_signal(st, info, signaler_pgrp) == MonitorSignalDecision::Ignore,
{
}

impl MonitorState {
    /// The signal table is sound.
    pub open spec fn wf(&self) -> bool {
        self.sigs.wf()
    }

    /// The state right after the command was forked: the command is alive
    /// and forms its own process group, led by itself.
    pub fn new(command_pid: i32, monitor_pgrp: i32, sigs: SignalTable) -> (st: Self)
        requires
            sigs.wf(),
        ensures
            st.wf(),
            st.command_pid == Some(command_pid),
            st.command_pgrp == command_pid,
            st.monitor_pgrp == monitor_pgrp,
            st.sigs == sigs,
    {
        MonitorState { command_pid: Some(command_pid), command_pgrp: command_pid, monitor_pgrp, sigs }
    }

    /// Policy for a signal bound for the command: an alarm turns into
    /// graceful termination, the two continue tokens re-foreground or
    /// background the command before continuing it, anything else is
    /// delivered as it is.
    pub fn send_signal(&self, signal: i32, command_pid: i32) -> (a: MonitorAction)
        ensures
            a == spec_send_signal(*self, signal, command_pid),
    {
        if signal == self.sigs.sigalrm {
            MonitorAction::Terminate { pid: command_pid }
        } else if signal == SIGCONT_FG {
            MonitorAction::ForegroundResume {
                pid: command_pid,
                pgrp: self.command_pgrp,
                cont: self.sigs.sigcont,
            }
        } else if signal == SIGCONT_BG {
            MonitorAction::BackgroundResume {
                pid: command_pid,
                pgrp: self.monitor_pgrp,
                cont: self.sigs.sigcont,
            }
        } else {
            MonitorAction::Deliver { pid: command_pid, signal }
        }
    }

    /// React to one receive attempt on the backchannel. An interrupted
    /// read changes nothing and is retried later; a failure breaks the
    /// loop; a forwarded signal becomes an action against the command, or
    /// nothing if the command is gone. A second green light never arrives
    /// on a conforming peer, so the caller rejects it before calling.
    pub fn read_backchannel(
        &self,
        outcome: &RecvOutcome<MonitorMessage>,
        control: &mut LoopControl<IoFault, WaitOutcome>,
    ) -> (a: MonitorAction)
        requires
            !matches!(outcome, RecvOutcome::Received(MonitorMessage::ExecCommand)),
        ensures
            match outcome {
                RecvOutcome::Interrupted => final(control)@ == old(control)@ && a
                    == MonitorAction::Idle,
                RecvOutcome::Failed(f) => final(control)@ == (if old(control).spec_got_break() {
                    old(control)@
                } else {
                    (LoopStatus::Stop(StopReason::Break(*f)))
                }) && a == MonitorAction::Idle,
                RecvOutcome::Received(m) => final(control)@ == old(control)@ && a == (match (m,
                self.command_pid) {
                    (MonitorMessage::Signal(s), Some(pid)) => spec_send_signal(*self, *s, pid),
                    _ => MonitorAction::Idle,
                }),
            },
    {
        match outcome {
            RecvOutcome::Interrupted => MonitorAction::Idle,
            RecvOutcome::Failed(f) => {
                control.set_break(*f);
                MonitorAction::Idle
            },
            RecvOutcome::Received(m) => {
                match (m, self.command_pid) {
                    (MonitorMessage::Signal(s), Some(pid)) => self.send_signal(*s, pid),
                    _ => MonitorAction::Idle,
                }
            },
        }
    }

    /// React to the wait status of the reaped command. Exit and
    /// termination end the loop and mark the command gone; a stop records
    /// which group owned the follower (so a later continue token can
    /// restore it) and reports the raw status upstream; a resume changes
    /// nothing. `follower_pgrp` is the foreground group of the follower as
    /// read by the caller, `None` when that read failed.
    pub fn handle_sigchld(
        &mut self,
        wait: &WaitOutcome,
        follower_pgrp: Option<i32>,
        control: &mut LoopControl<IoFault, WaitOutcome>,
    ) -> (msg: Option<ParentMessage>)
        ensures
            final(self).monitor_pgrp == old(self).monitor_pgrp,
            final(self).sigs == old(self).sigs,
            match wait {
                WaitOutcome::Exited(_) | WaitOutcome::Signaled(_) => {
                    &&& final(self).command_pid is None
                    &&& final(self).command_pgrp == old(self).command_pgrp
                    &&& final(control)@ == (if old(control).spec_got_break() {
                        old(control)@
                    } else {
                        (LoopStatus::Stop(StopReason::Exit(*wait)))
                    })
                    &&& msg is None
                },
                WaitOutcome::Stopped { signal: _, raw } => {
                    &&& final(self).command_pid == old(self).command_pid
                    &&& final(self).command_pgrp == (match follower_pgrp {
                        Some(g) => if g != old(self).monitor_pgrp {
                            g
                        } else {
                            old(self).command_pgrp
                        },
                        None => old(self).command_pgrp,
                    })
                    &&& final(control)@ == old(control)@
                    &&& msg == Some(ParentMessage::CommandStatus(*raw))
                },
                WaitOutcome::Continued => {
                    &&& *final(self) == *old(self)
                    &&& final(control)@ == old(control)@
                    &&& msg is None
                },
            },
    {
        match wait {
            WaitOutcome::Exited(_) | WaitOutcome::Signaled(_) => {
                self.command_pid = None;
                control.set_exit(*wait);
                None
            },
            WaitOutcome::Stopped { signal: _, raw } => {
                if let Some(pgrp) = follower_pgrp {
                    if pgrp != self.monitor_pgrp {
                        self.command_pgrp = pgrp;
                    }
                }
                Some(ParentMessage::CommandStatus(*raw))
            },
            WaitOutcome::Continued => None,
        }
    }

    /// React to one read attempt on the error pipe. A full errno frame
    /// means the command's `exec` failed: the code is forwarded upstream.
    /// An interrupted read changes nothing; a failed one breaks the loop.
    pub fn read_errpipe(
        &self,
        outcome: &RecvOutcome<i32>,
        control: &mut LoopControl<IoFault, WaitOutcome>,
    ) -> (msg: Option<ParentMessage>)
        ensures
            match outcome {
                RecvOutcome::Interrupted => final(control)@ == old(control)@ && msg is None,
                RecvOutcome::Failed(f) => final(control)@ == (if old(control).spec_got_break() {
                    old(control)@
                } else {
                    (LoopStatus::Stop(StopReason::Break(*f)))
                }) && msg is None,
                RecvOutcome::Received(code) => final(control)@ == old(control)@ && msg == Some(
                    ParentMessage::IoError(*code),
                ),
            },
    {
        match outcome {
            RecvOutcome::Interrupted => None,
            RecvOutcome::Failed(f) => {
                control.set_break(*f);
                None
            },
            RecvOutcome::Received(code) => Some(ParentMessage::IoError(*code)),
        }
    }

    /// What the monitor does with one signal it caught: nothing once the
    /// command is gone; reap on a child-status signal; drop a user signal
    /// that would loop back into the command; anything else goes through
    /// the policy table.
    pub fn on_signal(&self, info: &SignalInfo, signaler_pgrp: Option<i32>) -> (d:
        MonitorSignalDecision)
        ensures
            d == spec_on_signal(*self, *info, signaler_pgrp),
    {
        match self.command_pid {
            None => MonitorSignalDecision::Ignore,
            Some(pid) => {
                if info.signal == self.sigs.sigchld {
                    MonitorSignalDecision::ReapCommand { pid }
                } else if info.user_signaled && is_self_terminating(
                    info.signaler_pid,
                    pid,
                    self.command_pgrp,
                    signaler_pgrp,
                ) {
                    MonitorSignalDecision::Ignore
                } else {
                    MonitorSignalDecision::Act(self.send_signal(info.signal, pid))
                }
            },
        }
    }
}

/// What the monitor must do after its loop stopped: restore its own group
/// as the follower's foreground group (so the command's surviving children
/// see no spurious hangup), then send the closing message, if the stop
/// reason yields one.
#[derive(Clone, Copy, Debug, PartialEq, Eq, Structural)]
pub struct MonitorTeardown {
    /// The group to set as the follower's foreground group: always the
    /// monitor's own.
    pub restore_pgrp: i32,
    /// The closing message owed to the parent.
    pub message: Option<ParentMessage>,
}

impl MonitorState {
    /// The teardown plan for a stopped loop.
    pub fn teardown(&self, reason: &StopReason<IoFault, WaitOutcome>) -> (t: MonitorTeardown)
        ensures
            t.restore_pgrp == self.monitor_pgrp,
            match reason {
                StopReason::Exit(w) => t.message == spec_wait_to_message(*w),
                StopReason::Break(f) => t.message == spec_fault_to_message(*f),
            },
    {
        let message = match reason {
            StopReason::Exit(w) => wait_to_message(w),
            StopReason::Break(f) => fault_to_message(f),
        };
        MonitorTeardown { restore_pgrp: self.monitor_pgrp, message }
    }
}

} // verus!
