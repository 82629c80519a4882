//! Whole-session replay of the two event loops.
//!
//! The real loops sit between syscalls; their decisions are the verified
//! transitions of [`crate::monitor`] and [`crate::parent`]. Replaying a
//! session over any sequence of observed outcomes composes those
//! transitions and proves the ordering laws of the protocol: the monitor
//! announces the command's PID before anything else and closes with at
//! most one lifecycle message, at the very end; the parent's green light
//! leaves first and exactly once, and everything after it is a forwarded
//! signal.

use vstd::prelude::*;

use crate::event::{spec_set_break, spec_set_exit, LoopControl, LoopStatus, StopReason};
use crate::messages::{
    spec_fault_to_message, spec_wait_to_message, ExitReason, IoFault, MonitorMessage,
    ParentMessage, RecvOutcome, SendOutcome, SignalInfo, WaitOutcome,
};
use crate::monitor::{
    spec_on_signal, spec_send_signal, MonitorAction, MonitorSignalDecision, MonitorState,
};
use crate::parent::{
    spec_parent_on_signal, ParentExit, ParentModel, ParentSignalDecision, ParentState,
};
use crate::signals::SignalTable;

verus! {

/// One thing the monitor's event loop can observe.
pub enum MonitorEvent {
    /// The backchannel turned readable with this outcome.
    Backchannel(RecvOutcome<MonitorMessage>),
    /// The error pipe turned readable with this outcome.
    ErrPipe(RecvOutcome<i32>),
    /// A signal arrived. `signaler_pgrp` is the sender's process group as
    /// looked up then; `wait` is what reaping the command yielded, if the
    /// signal asked for a reap and the wait succeeded; `follower_pgrp` is
    /// the follower's foreground group as read then.
    Caught {
        info: SignalInfo,
        signaler_pgrp: Option<i32>,
        wait: Option<WaitOutcome>,
        follower_pgrp: Option<i32>,
    },
}

/// Everything a replayed monitor session produced.
pub struct MonitorSessionLog {
    /// The messages handed to the backchannel, in order, the closing one
    /// included.
    pub sent: Vec<ParentMessage>,
    /// The actions requested against the command, in order.
    pub actions: Vec<MonitorAction>,
    /// The state after the last event.
    pub state: MonitorState,
    /// Why the loop stopped, or `None` when the events ran out first.
    pub reason: Option<StopReason<IoFault, WaitOutcome>>,
    /// The group restored as the follower's foreground group at teardown;
    /// set exactly when the loop stopped.
    pub restore_pgrp: Option<i32>,
}

/// A message the monitor's loop may emit while it still runs; the two
/// lifecycle messages never appear here, they close the session.
pub open spec fn is_loop_emission(m: ParentMessage) -> bool {
    m is CommandStatus || m is IoError
}

/// The sequence an optional emission contributes to a trace.
pub open spec fn emission_seq<T>(o: Option<T>) -> Seq<T> {
    match o {
        Option::Some(x) => seq![x],
        Option::None => Seq::empty(),
    }
}

/// The monitor's state right after the command was forked.
pub open spec fn spec_monitor_init(
    command_pid: i32,
    monitor_pgrp: i32,
    sigs: SignalTable,
) -> MonitorState {
    MonitorState { command_pid: Some(command_pid), command_pgrp: command_pid, monitor_pgrp, sigs }
}

/// The model of one reap: what [`MonitorState::handle_sigchld`] does.
pub open spec fn spec_reap_step(
    st: MonitorState,
    ls: LoopStatus<IoFault, WaitOutcome>,
    w: WaitOutcome,
    follower_pgrp: Option<i32>,
) -> (MonitorState, LoopStatus<IoFault, WaitOutcome>, Option<ParentMessage>, Option<MonitorAction>) {
    match w {
        WaitOutcome::Exited(_) | WaitOutcome::Signaled(_) => (
            MonitorState { command_pid: None, ..st },
            spec_set_exit(ls, w),
            None,
            None,
        ),
        WaitOutcome::Stopped { signal: _, raw } => (
            MonitorState {
                command_pgrp: match follower_pgrp {
                    Option::Some(g) => if g != st.monitor_pgrp {
                        g
                    } else {
                        st.command_pgrp
                    },
                    Option::None => st.command_pgrp,
                },
                ..st
            },
            ls,
            Some(ParentMessage::CommandStatus(raw)),
            None,
        ),
        WaitOutcome::Continued => (st, ls, None, None),
    }
}

/// The model of one loop iteration: the state, the stop status, at most
/// one emitted message and at most one requested action after `e`.
pub open spec fn spec_monitor_step(
    st: MonitorState,
    ls: LoopStatus<IoFault, WaitOutcome>,
    e: MonitorEvent,
) -> (MonitorState, LoopStatus<IoFault, WaitOutcome>, Option<ParentMessage>, Option<MonitorAction>) {
    match e {
        MonitorEvent::Backchannel(o) => match o {
            RecvOutcome::Interrupted => (st, ls, None, None),
            RecvOutcome::Failed(f) => (st, spec_set_break(ls, f), None, None),
            RecvOutcome::Received(m) => match (m, st.command_pid) {
                (MonitorMessage::Signal(s), Option::Some(pid)) => (
                    st,
                    ls,
                    None,
                    Some(spec_send_signal(st, s, pid)),
                ),
                _ => (st, ls, None, None),
            },
        },
        MonitorEvent::ErrPipe(o) => match o {
            RecvOutcome::Interrupted => (st, ls, None, None),
            RecvOutcome::Failed(f) => (st, spec_set_break(ls, f), None, None),
            RecvOutcome::Received(code) => (st, ls, Some(ParentMessage::IoError(code)), None),
        },
        MonitorEvent::Caught { info, signaler_pgrp, wait, follower_pgrp } => match spec_on_signal(
            st,
            info,
            signaler_pgrp,
        ) {
            MonitorSignalDecision::Ignore => (st, ls, None, None),
            MonitorSignalDecision::Act(a) => (st, ls, None, Some(a)),
            MonitorSignalDecision::ReapCommand { pid: _ } => match wait {
                Option::Some(w) => spec_reap_step(st, ls, w, follower_pgrp),
                Option::None => (st, ls, None, None),
            },
        },
    }
}

/// The model of the whole loop: fold the step over the events, stopping
/// as soon as the status asks to.
pub open spec fn spec_monitor_loop(
    st: MonitorState,
    ls: LoopStatus<IoFault, WaitOutcome>,
    events: Seq<MonitorEvent>,
) -> (MonitorState, LoopStatus<IoFault, WaitOutcome>, Seq<ParentMessage>, Seq<MonitorAction>)
    decreases events.len(),
{
    if events.len() == 0 || !(ls is Run) {
        (st, ls, Seq::empty(), Seq::empty())
    } else {
        let step = spec_monitor_step(st, ls, events.first());
        let rest = spec_monitor_loop(step.0, step.1, events.drop_first());
        (rest.0, rest.1, emission_seq(step.2) + rest.2, emission_seq(step.3) + rest.3)
    }
}

/// The message that closes a session whose loop stopped with this status.
pub open spec fn spec_closing_message(ls: LoopStatus<IoFault, WaitOutcome>) -> Option<
    ParentMessage,
> {
    match ls {
        LoopStatus::Run => None,
        LoopStatus::Stop(StopReason::Exit(w)) => spec_wait_to_message(w),
        LoopStatus::Stop(StopReason::Break(f)) => spec_fault_to_message(f),
    }
}

/// The loop model over a single event.
pub proof fn lemma_monitor_loop_one(
    st: MonitorState,
    ls: LoopStatus<IoFault, WaitOutcome>,
    e: MonitorEvent,
)
    ensures
        spec_monitor_loop(st, ls, seq![e]) == (if ls is Run {
            let s = spec_monitor_step(st, ls, e);
            (s.0, s.1, emission_seq(s.2), emission_seq(s.3))
        } else {
            (st, ls, Seq::<ParentMessage>::empty(), Seq::<MonitorAction>::empty())
        }),
{
    assert(seq![e].first() == e);
    assert(seq![e].drop_first() =~= Seq::<MonitorEvent>::empty());
    if ls is Run {
        let s = spec_monitor_step(st, ls, e);
        assert(spec_monitor_loop(s.0, s.1, Seq::<MonitorEvent>::empty()) == (
            s.0,
            s.1,
            Seq::<ParentMessage>::empty(),
            Seq::<MonitorAction>::empty(),
        ));
        assert(emission_seq(s.2) + Seq::<ParentMessage>::empty() =~= emission_seq(s.2));
        assert(emission_seq(s.3) + Seq::<MonitorAction>::empty() =~= emission_seq(s.3));
    }
}

/// Splitting a trace splits the loop model: running over `xs + ys` is
/// running over `xs`, then over `ys` from where that left off.
pub proof fn lemma_monitor_loop_append(
    st: MonitorState,
    ls: LoopStatus<IoFault, WaitOutcome>,
    xs: Seq<MonitorEvent>,
    ys: Seq<MonitorEvent>,
)
    ensures
        ({
            let first = spec_monitor_loop(st, ls, xs);
            let second = spec_monitor_loop(first.0, first.1, ys);
            spec_monitor_loop(st, ls, xs + ys) == (
                second.0,
                second.1,
                first.2 + second.2,
                first.3 + second.3,
            )
        }),
    decreases xs.len(),
{
    let first = spec_monitor_loop(st, ls, xs);
    let second = spec_monitor_loop(first.0, first.1, ys);
    if !(ls is Run) {
        assert(first == (st, ls, Seq::<ParentMessage>::empty(), Seq::<MonitorAction>::empty()));
        assert(spec_monitor_loop(st, ls, xs + ys) == (
            st,
            ls,
            Seq::<ParentMessage>::empty(),
            Seq::<MonitorAction>::empty(),
        ));
        assert(first.2 + second.2 =~= second.2);
        assert(first.3 + second.3 =~= second.3);
    } else if xs.len() == 0 {
        assert(xs + ys =~= ys);
        assert(first == (st, ls, Seq::<ParentMessage>::empty(), Seq::<MonitorAction>::empty()));
        assert(first.2 + second.2 =~= second.2);
        assert(first.3 + second.3 =~= second.3);
    } else {
        let step = spec_monitor_step(st, ls, xs.first());
        assert((xs + ys).len() > 0);
        assert((xs + ys).first() == xs.first());
        assert((xs + ys).drop_first() =~= xs.drop_first() + ys);
        lemma_monitor_loop_append(step.0, step.1, xs.drop_first(), ys);
        let tail_first = spec_monitor_loop(step.0, step.1, xs.drop_first());
        assert(first.2 =~= emission_seq(step.2) + tail_first.2);
        assert(first.3 =~= emission_seq(step.3) + tail_first.3);
        let tail_second = spec_monitor_loop(tail_first.0, tail_first.1, ys);
        assert(first.2 + second.2 =~= emission_seq(step.2) + (tail_first.2 + tail_second.2));
        assert(first.3 + second.3 =~= emission_seq(step.3) + (tail_first.3 + tail_second.3));
    }
}

/// An event that only says a blocking call was interrupted by a signal.
pub open spec fn is_interrupt_event(e: MonitorEvent) -> bool {
    ||| e matches MonitorEvent::Backchannel(RecvOutcome::Interrupted)
    ||| e matches MonitorEvent::ErrPipe(RecvOutcome::Interrupted)
}

/// Interrupt transparency: injecting an interrupted call anywhere into a
/// monitor session changes nothing — not the final state, not the stop
/// status (and with it the command's reported exit reason), not one
/// message or action.
pub proof fn lemma_interrupts_are_transparent(
    st: MonitorState,
    ls: LoopStatus<IoFault, WaitOutcome>,
    xs: Seq<MonitorEvent>,
    e: MonitorEvent,
    ys: Seq<MonitorEvent>,
)
    requires
        is_interrupt_event(e),
    ensures
        spec_monitor_loop(st, ls, xs + seq![e] + ys) == spec_monitor_loop(st, ls, xs + ys),
{
    lemma_monitor_loop_append(st, ls, xs, ys);
    lemma_monitor_loop_append(st, ls, xs + seq![e], ys);
    lemma_monitor_loop_append(st, ls, xs, seq![e]);
    let first = spec_monitor_loop(st, ls, xs);
    lemma_monitor_loop_one(first.0, first.1, e);
    let mid = spec_monitor_loop(first.0, first.1, seq![e]);
    if first.1 is Run {
        assert(spec_monitor_step(first.0, first.1, e) == (
            first.0,
            first.1,
            Option::<ParentMessage>::None,
            Option::<MonitorAction>::None,
        ));
    }
    assert(mid == (first.0, first.1, Seq::<ParentMessage>::empty(), Seq::<MonitorAction>::empty()));
    let second = spec_monitor_loop(first.0, first.1, ys);
    assert(first.2 + mid.2 =~= first.2);
    assert(first.3 + mid.3 =~= first.3);
    assert((first.2 + mid.2) + second.2 =~= first.2 + second.2);
    assert((first.3 + mid.3) + second.3 =~= first.3 + second.3);
}

/// A message that reports the command's end.
pub open spec fn is_lifecycle_message(m: ParentMessage) -> bool {
    m is CommandExit || m is CommandSignal
}

/// Replay a monitor session from just after the command was forked: the
/// PID announcement goes out first, then the loop runs over `events`
/// until one of them stops it, then the teardown plan closes the session.
///
/// The contract carries the protocol's ordering laws: the PID
/// announcement is the first message and the only one of its kind; a
/// lifecycle message can only stand at the very end; when the loop
/// stopped because the command was reaped, the session closes with
/// exactly the matching lifecycle message; and whenever the loop stopped,
/// the follower's foreground group is restored to the monitor's own.
pub fn run_monitor_session(
    command_pid: i32,
    monitor_pgrp: i32,
    sigs: SignalTable,
    events: &Vec<MonitorEvent>,
) -> (log: MonitorSessionLog)
    requires
        sigs.wf(),
        forall|k: int|
            0 <= k < events@.len() ==> !((#[trigger] events@[k]) matches MonitorEvent::Backchannel(
                RecvOutcome::Received(MonitorMessage::ExecCommand),
            )),
    ensures
        log.sent@.len() >= 1,
        log.sent@[0] == ParentMessage::CommandPid(command_pid),
        forall|k: int| 1 <= k < log.sent@.len() ==> !((#[trigger] log.sent@[k]) is CommandPid),
        forall|k: int|
            0 <= k < log.sent@.len() && is_lifecycle_message(#[trigger] log.sent@[k]) ==> k
                == log.sent@.len() - 1,
        log.reason matches Some(StopReason::Exit(w)) ==> {
            &&& (w matches WaitOutcome::Exited(code) ==> log.sent@.last()
                == ParentMessage::CommandExit(code))
            &&& (w matches WaitOutcome::Signaled(s) ==> log.sent@.last()
                == ParentMessage::CommandSignal(s))
            &&& (w is Exited || w is Signaled)
        },
        log.restore_pgrp == (if log.reason is Some {
            Some(monitor_pgrp)
        } else {
            Option::<i32>::None
        }),
        ({
            let fold = spec_monitor_loop(
                spec_monitor_init(command_pid, monitor_pgrp, sigs),
                LoopStatus::<IoFault, WaitOutcome>::Run,
                events@,
            );
            &&& log.state == fold.0
            &&& log.actions@ == fold.3
            &&& (match fold.1 {
                LoopStatus::Run => log.reason is None,
                LoopStatus::Stop(r) => log.reason == Some(r),
            })
            &&& log.sent@ == seq![ParentMessage::CommandPid(command_pid)] + fold.2
                + emission_seq(spec_closing_message(fold.1))
        }),
{
    let mut state = MonitorState::new(command_pid, monitor_pgrp, sigs);
    let mut control = LoopControl::<IoFault, WaitOutcome>::new();
    let mut sent: Vec<ParentMessage> = Vec::new();
    let mut actions: Vec<MonitorAction> = Vec::new();
    sent.push(ParentMessage::CommandPid(command_pid));

    proof {
        assert(events@.take(0) =~= Seq::<MonitorEvent>::empty());
        assert(state == spec_monitor_init(command_pid, monitor_pgrp, sigs));
        assert(sent@.skip(1) =~= Seq::<ParentMessage>::empty());
    }

    let mut i: usize = 0;
    while i < events.len() && !control.should_stop()
        invariant
            i <= events@.len(),
            forall|k: int|
                0 <= k < events@.len() ==> !((#[trigger] events@[k])
                    matches MonitorEvent::Backchannel(
                    RecvOutcome::Received(MonitorMessage::ExecCommand),
                )),
            state.monitor_pgrp == monitor_pgrp,
            state.sigs == sigs,
            sent@.len() >= 1,
            sent@[0] == ParentMessage::CommandPid(command_pid),
            forall|k: int| 1 <= k < sent@.len() ==> is_loop_emission(#[trigger] sent@[k]),
            control@ matches LoopStatus::Stop(StopReason::Exit(w)) ==> (w is Exited
                || w is Signaled),
            ({
                let fold = spec_monitor_loop(
                    spec_monitor_init(command_pid, monitor_pgrp, sigs),
                    LoopStatus::<IoFault, WaitOutcome>::Run,
                    events@.take(i as int),
                );
                &&& state == fold.0
                &&& control@ == fold.1
                &&& sent@.skip(1) == fold.2
                &&& actions@ == fold.3
            }),
        decreases events@.len() - i,
    {
        match &events[i] {
            MonitorEvent::Backchannel(o) => {
                let a = state.read_backchannel(o, &mut control);
                if !matches!(a, MonitorAction::Idle) {
                    actions.push(a);
                }
            },
            MonitorEvent::ErrPipe(o) => {
                if let Some(m) = state.read_errpipe(o, &mut control) {
                    sent.push(m);
                }
            },
            MonitorEvent::Caught { info, signaler_pgrp, wait, follower_pgrp } => {
                let d = state.on_signal(info, *signaler_pgrp);
                match d {
                    MonitorSignalDecision::Ignore => {},
                    MonitorSignalDecision::ReapCommand { pid: _ } => {
                        if let Some(w) = wait {
                            if let Some(m) = state.handle_sigchld(w, *follower_pgrp, &mut control) {
                                sent.push(m);
                            }
                        }
                    },
                    MonitorSignalDecision::Act(a) => {
                        actions.push(a);
                    },
                }
            },
        }
        proof {
            let init = spec_monitor_init(command_pid, monitor_pgrp, sigs);
            let run = LoopStatus::<IoFault, WaitOutcome>::Run;
            let pre = spec_monitor_loop(init, run, events@.take(i as int));
            let ev = events@[i as int];
            let s = spec_monitor_step(pre.0, pre.1, ev);
            assert(events@.take(i as int + 1) =~= events@.take(i as int) + seq![ev]);
            lemma_monitor_loop_append(init, run, events@.take(i as int), seq![ev]);
            lemma_monitor_loop_one(pre.0, pre.1, ev);
            assert(state == s.0);
            assert(control@ == s.1);
            assert(sent@.skip(1) =~= pre.2 + emission_seq(s.2));
            assert(actions@ =~= pre.3 + emission_seq(s.3));
        }
        i = i + 1;
    }

    proof {
        let init = spec_monitor_init(command_pid, monitor_pgrp, sigs);
        let run = LoopStatus::<IoFault, WaitOutcome>::Run;
        let partial = spec_monitor_loop(init, run, events@.take(i as int));
        if i < events.len() {
            assert(events@ =~= events@.take(i as int) + events@.skip(i as int));
            lemma_monitor_loop_append(init, run, events@.take(i as int), events@.skip(i as int));
            assert(spec_monitor_loop(partial.0, partial.1, events@.skip(i as int)) == (
                partial.0,
                partial.1,
                Seq::<ParentMessage>::empty(),
                Seq::<MonitorAction>::empty(),
            ));
            assert(partial.2 + Seq::<ParentMessage>::empty() =~= partial.2);
            assert(partial.3 + Seq::<MonitorAction>::empty() =~= partial.3);
        } else {
            assert(events@.take(i as int) =~= events@);
        }
        assert(spec_monitor_loop(init, run, events@) == partial);
    }

    proof {
        let fold = spec_monitor_loop(
            spec_monitor_init(command_pid, monitor_pgrp, sigs),
            LoopStatus::<IoFault, WaitOutcome>::Run,
            events@,
        );
        assert(sent@ =~= seq![ParentMessage::CommandPid(command_pid)] + fold.2);
    }
    let reason = control.into_reason();
    let restore_pgrp: Option<i32> = match &reason {
        Some(r) => {
            let plan = state.teardown(r);
            if let Some(m) = plan.message {
                sent.push(m);
                proof {
                    let fold = spec_monitor_loop(
                        spec_monitor_init(command_pid, monitor_pgrp, sigs),
                        LoopStatus::<IoFault, WaitOutcome>::Run,
                        events@,
                    );
                    assert(emission_seq(spec_closing_message(fold.1)) =~= seq![m]);
                    assert(sent@ =~= seq![ParentMessage::CommandPid(command_pid)] + fold.2
                        + emission_seq(spec_closing_message(fold.1)));
                }
            } else {
                proof {
                    let fold = spec_monitor_loop(
                        spec_monitor_init(command_pid, monitor_pgrp, sigs),
                        LoopStatus::<IoFault, WaitOutcome>::Run,
                        events@,
                    );
                    assert(sent@ =~= seq![ParentMessage::CommandPid(command_pid)] + fold.2
                        + emission_seq(spec_closing_message(fold.1)));
                }
            }
            Some(plan.restore_pgrp)
        },
        None => {
            proof {
                let fold = spec_monitor_loop(
                    spec_monitor_init(command_pid, monitor_pgrp, sigs),
                    LoopStatus::<IoFault, WaitOutcome>::Run,
                    events@,
                );
                assert(sent@ =~= seq![ParentMessage::CommandPid(command_pid)] + fold.2
                    + emission_seq(spec_closing_message(fold.1)));
            }
            None
        },
    };

    MonitorSessionLog { sent, actions, state, reason, restore_pgrp }
}

/// One thing the parent's event loop can observe.
pub enum ParentEvent {
    /// The backchannel turned readable with this outcome.
    Backchannel(RecvOutcome<ParentMessage>),
    /// A signal arrived; `wait` is what reaping the monitor yielded, if
    /// the signal asked for a reap and the wait succeeded.
    Caught { info: SignalInfo, signaler_pgrp: Option<i32>, wait: Option<WaitOutcome> },
    /// The backchannel turned writable; sending the front of the queue,
    /// if any, had this outcome.
    Writable(SendOutcome),
}

/// The parent's state right after the monitor was forked and the green
/// light was sent.
pub open spec fn spec_parent_init(
    monitor_pid: i32,
    sudo_pid: i32,
    sigs: SignalTable,
) -> ParentModel {
    ParentModel {
        monitor_pid: Some(monitor_pid),
        sudo_pid,
        command_pid: None,
        queue: Seq::empty(),
        sigs,
    }
}

/// The model of one message arrival: what
/// [`ParentState::on_message_received`] does.
pub open spec fn spec_message_step(
    m: ParentModel,
    ls: LoopStatus<IoFault, ParentExit>,
    o: RecvOutcome<ParentMessage>,
) -> (ParentModel, LoopStatus<IoFault, ParentExit>) {
    match o {
        RecvOutcome::Interrupted => (m, ls),
        RecvOutcome::Failed(f) => if f is Eof {
            (m, spec_set_exit(ls, ParentExit::Backchannel(IoFault::Eof)))
        } else {
            (m, spec_set_break(ls, f))
        },
        RecvOutcome::Received(msg) => match msg {
            ParentMessage::CommandPid(pid) => (ParentModel { command_pid: Some(pid), ..m }, ls),
            ParentMessage::CommandExit(code) => (
                m,
                spec_set_exit(ls, ParentExit::Command(ExitReason::Code(code))),
            ),
            ParentMessage::CommandSignal(s) => (
                m,
                spec_set_exit(ls, ParentExit::Command(ExitReason::Signal(s))),
            ),
            ParentMessage::CommandStatus(_) => (m, ls),
            ParentMessage::IoError(code) => (m, spec_set_break(ls, IoFault::Errno(code))),
            ParentMessage::ShortRead => (m, spec_set_break(ls, IoFault::Eof)),
        },
    }
}

/// The model of one parent loop iteration: the state, the stop status and
/// at most one message handed to the backchannel after `e`.
pub open spec fn spec_parent_step(
    m: ParentModel,
    ls: LoopStatus<IoFault, ParentExit>,
    e: ParentEvent,
) -> (ParentModel, LoopStatus<IoFault, ParentExit>, Option<MonitorMessage>) {
    match e {
        ParentEvent::Backchannel(o) => {
            let r = spec_message_step(m, ls, o);
            (r.0, r.1, None)
        },
        ParentEvent::Caught { info, signaler_pgrp, wait } => match spec_parent_on_signal(
            m,
            info,
            signaler_pgrp,
        ) {
            ParentSignalDecision::Ignored => (m, ls, None),
            ParentSignalDecision::Scheduled => (
                ParentModel { queue: m.queue.push(MonitorMessage::Signal(info.signal)), ..m },
                ls,
                None,
            ),
            ParentSignalDecision::ReapMonitor { pid: _ } => match wait {
                Option::Some(w) => match w {
                    WaitOutcome::Exited(_) | WaitOutcome::Signaled(_) => (
                        ParentModel { monitor_pid: None, ..m },
                        ls,
                        None,
                    ),
                    _ => (m, ls, None),
                },
                Option::None => (m, ls, None),
            },
        },
        ParentEvent::Writable(o) => {
            if m.queue.len() > 0 {
                match o {
                    SendOutcome::Sent => (
                        ParentModel { queue: m.queue.skip(1), ..m },
                        ls,
                        Some(m.queue[0]),
                    ),
                    SendOutcome::BrokenPipe => (m, spec_set_break(ls, IoFault::BrokenPipe), None),
                    SendOutcome::Retry => (m, ls, None),
                }
            } else {
                (m, ls, None)
            }
        },
    }
}

/// The model of the whole parent loop: fold the step over the events,
/// stopping as soon as the status asks to.
pub open spec fn spec_parent_loop(
    m: ParentModel,
    ls: LoopStatus<IoFault, ParentExit>,
    events: Seq<ParentEvent>,
) -> (ParentModel, LoopStatus<IoFault, ParentExit>, Seq<MonitorMessage>)
    decreases events.len(),
{
    if events.len() == 0 || !(ls is Run) {
        (m, ls, Seq::empty())
    } else {
        let step = spec_parent_step(m, ls, events.first());
        let rest = spec_parent_loop(step.0, step.1, events.drop_first());
        (rest.0, rest.1, emission_seq(step.2) + rest.2)
    }
}

/// The parent loop model over a single event.
pub proof fn lemma_parent_loop_one(
    m: ParentModel,
    ls: LoopStatus<IoFault, ParentExit>,
    e: ParentEvent,
)
    ensures
        spec_parent_loop(m, ls, seq![e]) == (if ls is Run {
            let s = spec_parent_step(m, ls, e);
            (s.0, s.1, emission_seq(s.2))
        } else {
            (m, ls, Seq::<MonitorMessage>::empty())
        }),
{
    assert(seq![e].first() == e);
    assert(seq![e].drop_first() =~= Seq::<ParentEvent>::empty());
    if ls is Run {
        let s = spec_parent_step(m, ls, e);
        assert(spec_parent_loop(s.0, s.1, Seq::<ParentEvent>::empty()) == (
            s.0,
            s.1,
            Seq::<MonitorMessage>::empty(),
        ));
        assert(emission_seq(s.2) + Seq::<MonitorMessage>::empty() =~= emission_seq(s.2));
    }
}

/// Splitting a trace splits the parent loop model.
pub proof fn lemma_parent_loop_append(
    m: ParentModel,
    ls: LoopStatus<IoFault, ParentExit>,
    xs: Seq<ParentEvent>,
    ys: Seq<ParentEvent>,
)
    ensures
        ({
            let first = spec_parent_loop(m, ls, xs);
            let second = spec_parent_loop(first.0, first.1, ys);
            spec_parent_loop(m, ls, xs + ys) == (second.0, second.1, first.2 + second.2)
        }),
    decreases xs.len(),
{
    let first = spec_parent_loop(m, ls, xs);
    let second = spec_parent_loop(first.0, first.1, ys);
    if !(ls is Run) {
        assert(first == (m, ls, Seq::<MonitorMessage>::empty()));
        assert(spec_parent_loop(m, ls, xs + ys) == (m, ls, Seq::<MonitorMessage>::empty()));
        assert(first.2 + second.2 =~= second.2);
    } else if xs.len() == 0 {
        assert(xs + ys =~= ys);
        assert(first == (m, ls, Seq::<MonitorMessage>::empty()));
        assert(first.2 + second.2 =~= second.2);
    } else {
        let step = spec_parent_step(m, ls, xs.first());
        assert((xs + ys).len() > 0);
        assert((xs + ys).first() == xs.first());
        assert((xs + ys).drop_first() =~= xs.drop_first() + ys);
        lemma_parent_loop_append(step.0, step.1, xs.drop_first(), ys);
        let tail_first = spec_parent_loop(step.0, step.1, xs.drop_first());
        assert(first.2 =~= emission_seq(step.2) + tail_first.2);
        let tail_second = spec_parent_loop(tail_first.0, tail_first.1, ys);
        assert(first.2 + second.2 =~= emission_seq(step.2) + (tail_first.2 + tail_second.2));
    }
}

/// An event that only says a blocking receive was interrupted by a
/// signal.
pub open spec fn is_parent_interrupt_event(e: ParentEvent) -> bool {
    e matches ParentEvent::Backchannel(RecvOutcome::Interrupted)
}

/// Interrupt transparency, parent side: injecting an interrupted receive
/// anywhere into a parent session changes nothing — not the final state,
/// not the stop status (and with it the exit reason handed to the
/// caller), not one forwarded message.
pub proof fn lemma_parent_interrupts_are_transparent(
    m: ParentModel,
    ls: LoopStatus<IoFault, ParentExit>,
    xs: Seq<ParentEvent>,
    e: ParentEvent,
    ys: Seq<ParentEvent>,
)
    requires
        is_parent_interrupt_event(e),
    ensures
        spec_parent_loop(m, ls, xs + seq![e] + ys) == spec_parent_loop(m, ls, xs + ys),
{
    lemma_parent_loop_append(m, ls, xs, ys);
    lemma_parent_loop_append(m, ls, xs + seq![e], ys);
    lemma_parent_loop_append(m, ls, xs, seq![e]);
    let first = spec_parent_loop(m, ls, xs);
    lemma_parent_loop_one(first.0, first.1, e);
    let mid = spec_parent_loop(first.0, first.1, seq![e]);
    if first.1 is Run {
        assert(spec_parent_step(first.0, first.1, e) == (
            first.0,
            first.1,
            Option::<MonitorMessage>::None,
        ));
    }
    assert(mid == (first.0, first.1, Seq::<MonitorMessage>::empty()));
    let second = spec_parent_loop(first.0, first.1, ys);
    assert(first.2 + mid.2 =~= first.2);
    assert((first.2 + mid.2) + second.2 =~= first.2 + second.2);
}

/// Everything a replayed parent session produced.
pub struct ParentSessionLog {
    /// The messages handed to the backchannel, in order, the green light
    /// included.
    pub sent: Vec<MonitorMessage>,
    /// The state after the last event.
    pub state: ParentState,
    /// Why the loop stopped, or `None` when the events ran out first.
    pub reason: Option<StopReason<IoFault, ParentExit>>,
}

/// Replay a parent session from just after the monitor was forked: the
/// green light goes out first, then the loop runs over `events` until one
/// of them stops it.
///
/// The contract carries the protocol's ordering law: the green light is
/// the first message and the only one of its kind — everything after it
/// is a forwarded signal, so a conforming monitor sees `ExecCommand`
/// before anything else and never again.
pub fn run_parent_session(
    monitor_pid: i32,
    sudo_pid: i32,
    sigs: SignalTable,
    events: &Vec<ParentEvent>,
) -> (log: ParentSessionLog)
    requires
        sigs.wf(),
    ensures
        log.sent@.len() >= 1,
        log.sent@[0] == MonitorMessage::ExecCommand,
        forall|k: int| 1 <= k < log.sent@.len() ==> #[trigger] log.sent@[k] is Signal,
        log.state.wf(),
        ({
            let fold = spec_parent_loop(
                spec_parent_init(monitor_pid, sudo_pid, sigs),
                LoopStatus::<IoFault, ParentExit>::Run,
                events@,
            );
            &&& log.state@ == fold.0
            &&& (match fold.1 {
                LoopStatus::Run => log.reason is None,
                LoopStatus::Stop(r) => log.reason == Some(r),
            })
            &&& log.sent@ == seq![MonitorMessage::ExecCommand] + fold.2
        }),
{
    let mut state = ParentState::new(monitor_pid, sudo_pid, sigs);
    let mut control = LoopControl::<IoFault, ParentExit>::new();
    let mut sent: Vec<MonitorMessage> = Vec::new();
    sent.push(MonitorMessage::ExecCommand);

    proof {
        assert(events@.take(0) =~= Seq::<ParentEvent>::empty());
        assert(state@.queue =~= spec_parent_init(monitor_pid, sudo_pid, sigs).queue);
        assert(state@ == spec_parent_init(monitor_pid, sudo_pid, sigs));
        assert(sent@.skip(1) =~= Seq::<MonitorMessage>::empty());
    }

    let mut i: usize = 0;
    while i < events.len() && !control.should_stop()
        invariant
            i <= events@.len(),
            state.wf(),
            sent@.len() >= 1,
            sent@[0] == MonitorMessage::ExecCommand,
            forall|k: int| 1 <= k < sent@.len() ==> #[trigger] sent@[k] is Signal,
            ({
                let fold = spec_parent_loop(
                    spec_parent_init(monitor_pid, sudo_pid, sigs),
                    LoopStatus::<IoFault, ParentExit>::Run,
                    events@.take(i as int),
                );
                &&& state@ == fold.0
                &&& control@ == fold.1
                &&& sent@.skip(1) == fold.2
            }),
        decreases events@.len() - i,
    {
        match &events[i] {
            ParentEvent::Backchannel(o) => {
                state.on_message_received(o, &mut control);
            },
            ParentEvent::Caught { info, signaler_pgrp, wait } => {
                let d = state.on_signal(info, *signaler_pgrp);
                match d {
                    ParentSignalDecision::ReapMonitor { pid: _ } => {
                        if let Some(w) = wait {
                            state.handle_sigchld(w);
                        }
                    },
                    _ => {},
                }
            },
            ParentEvent::Writable(o) => {
                if let Some(m) = state.next_outbound() {
                    if matches!(o, SendOutcome::Sent) {
                        sent.push(m);
                    }
                    state.message_sent(o, &mut control);
                }
            },
        }
        proof {
            let init = spec_parent_init(monitor_pid, sudo_pid, sigs);
            let run = LoopStatus::<IoFault, ParentExit>::Run;
            let pre = spec_parent_loop(init, run, events@.take(i as int));
            let ev = events@[i as int];
            let s = spec_parent_step(pre.0, pre.1, ev);
            assert(events@.take(i as int + 1) =~= events@.take(i as int) + seq![ev]);
            lemma_parent_loop_append(init, run, events@.take(i as int), seq![ev]);
            lemma_parent_loop_one(pre.0, pre.1, ev);
            assert(state@.queue =~= s.0.queue);
            assert(state@ == s.0);
            assert(control@ == s.1);
            assert(sent@.skip(1) =~= pre.2 + emission_seq(s.2));
        }
        i = i + 1;
    }

    proof {
        let init = spec_parent_init(monitor_pid, sudo_pid, sigs);
        let run = LoopStatus::<IoFault, ParentExit>::Run;
        let partial = spec_parent_loop(init, run, events@.take(i as int));
        if i < events.len() {
            assert(events@ =~= events@.take(i as int) + events@.skip(i as int));
            lemma_parent_loop_append(init, run, events@.take(i as int), events@.skip(i as int));
            assert(spec_parent_loop(partial.0, partial.1, events@.skip(i as int)) == (
                partial.0,
                partial.1,
                Seq::<MonitorMessage>::empty(),
            ));
            assert(partial.2 + Seq::<MonitorMessage>::empty() =~= partial.2);
        } else {
            assert(events@.take(i as int) =~= events@);
        }
        assert(spec_parent_loop(init, run, events@) == partial);
        assert(sent@ =~= seq![MonitorMessage::ExecCommand] + partial.2);
    }

    let reason = control.into_reason();
    ParentSessionLog { sent, state, reason }
}

} // verus!
