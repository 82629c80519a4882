//! End-to-end scenarios replayed over the verified session drivers, with
//! the platform's real signal numbers.

use pty_exec::event::StopReason;
use pty_exec::messages::{
    ExitReason, IoFault, MonitorMessage, ParentMessage, RecvOutcome, SendOutcome, SignalInfo,
    WaitOutcome,
};
use pty_exec::monitor::MonitorAction;
use pty_exec::parent::{exit_outcome, ParentExit};
use pty_exec::session::{
    run_monitor_session, run_parent_session, MonitorEvent, ParentEvent,
};
use pty_exec::signals::{platform_signals, SIGCONT_FG};

use signal_hook::consts::{SIGALRM, SIGCHLD, SIGCONT, SIGINT, SIGTERM, SIGTSTP, SIGWINCH};

const COMMAND_PID: i32 = 100;
const MONITOR_PID: i32 = 50;
const MONITOR_PGRP: i32 = 50;
const SUDO_PID: i32 = 10;

fn sigchld_event(wait: WaitOutcome, follower_pgrp: Option<i32>) -> MonitorEvent {
    MonitorEvent::Caught {
        info: SignalInfo { signal: SIGCHLD, signaler_pid: 0, user_signaled: false },
        signaler_pgrp: None,
        wait: Some(wait),
        follower_pgrp,
    }
}

#[test]
fn platform_table_matches_the_operating_system() {
    let t = platform_signals();
    assert_eq!(t.sigchld, SIGCHLD);
    assert_eq!(t.sigcont, SIGCONT);
    assert_eq!(t.sigwinch, SIGWINCH);
    assert_eq!(t.sigalrm, SIGALRM);
    assert!(t.sigchld > 0 && t.sigcont > 0 && t.sigwinch > 0 && t.sigalrm > 0);
    assert_ne!(t.sigchld, t.sigcont);
    assert_ne!(t.sigchld, t.sigwinch);
    assert_ne!(t.sigchld, t.sigalrm);
    assert_ne!(t.sigcont, t.sigwinch);
    assert_ne!(t.sigcont, t.sigalrm);
    assert_ne!(t.sigwinch, t.sigalrm);
}

#[test]
fn normal_exit_reports_code_zero() {
    let sigs = platform_signals();
    let events = vec![sigchld_event(WaitOutcome::Exited(0), None)];
    let log = run_monitor_session(COMMAND_PID, MONITOR_PGRP, sigs, &events);
    assert_eq!(
        log.sent,
        vec![ParentMessage::CommandPid(COMMAND_PID), ParentMessage::CommandExit(0)]
    );
    assert_eq!(log.restore_pgrp, Some(MONITOR_PGRP));

    let parent_events = vec![
        ParentEvent::Backchannel(RecvOutcome::Received(ParentMessage::CommandPid(COMMAND_PID))),
        ParentEvent::Backchannel(RecvOutcome::Received(ParentMessage::CommandExit(0))),
    ];
    let plog = run_parent_session(MONITOR_PID, SUDO_PID, sigs, &parent_events);
    assert_eq!(plog.state.command_pid, Some(COMMAND_PID));
    let reason = plog.reason.expect("loop should have stopped");
    assert_eq!(exit_outcome(&reason), Ok(ExitReason::Code(0)));
}

#[test]
fn nonzero_exit_reports_that_code() {
    let sigs = platform_signals();
    let events = vec![sigchld_event(WaitOutcome::Exited(42), None)];
    let log = run_monitor_session(COMMAND_PID, MONITOR_PGRP, sigs, &events);
    assert_eq!(log.sent.last(), Some(&ParentMessage::CommandExit(42)));

    let parent_events = vec![
        ParentEvent::Backchannel(RecvOutcome::Received(ParentMessage::CommandPid(COMMAND_PID))),
        ParentEvent::Backchannel(RecvOutcome::Received(ParentMessage::CommandExit(42))),
    ];
    let plog = run_parent_session(MONITOR_PID, SUDO_PID, sigs, &parent_events);
    assert_eq!(exit_outcome(&plog.reason.unwrap()), Ok(ExitReason::Code(42)));
}

#[test]
fn killed_by_signal_reports_that_signal() {
    let sigs = platform_signals();
    let events = vec![sigchld_event(WaitOutcome::Signaled(SIGTERM), None)];
    let log = run_monitor_session(COMMAND_PID, MONITOR_PGRP, sigs, &events);
    assert_eq!(log.sent.last(), Some(&ParentMessage::CommandSignal(SIGTERM)));

    let parent_events = vec![
        ParentEvent::Backchannel(RecvOutcome::Received(ParentMessage::CommandPid(COMMAND_PID))),
        ParentEvent::Backchannel(RecvOutcome::Received(ParentMessage::CommandSignal(SIGTERM))),
    ];
    let plog = run_parent_session(MONITOR_PID, SUDO_PID, sigs, &parent_events);
    assert_eq!(exit_outcome(&plog.reason.unwrap()), Ok(ExitReason::Signal(SIGTERM)));
}

#[test]
fn exec_failure_surfaces_the_errno_and_no_command_pid() {
    let sigs = platform_signals();
    let enoent = 2;
    // Monitor side: the error pipe yields the errno, which goes upstream.
    let events = vec![MonitorEvent::ErrPipe(RecvOutcome::Received(enoent))];
    let log = run_monitor_session(COMMAND_PID, MONITOR_PGRP, sigs, &events);
    assert!(log.sent.contains(&ParentMessage::IoError(enoent)));

    // Parent side: the error arrives before any PID announcement.
    let parent_events = vec![
        ParentEvent::Backchannel(RecvOutcome::Received(ParentMessage::IoError(enoent))),
    ];
    let plog = run_parent_session(MONITOR_PID, SUDO_PID, sigs, &parent_events);
    assert_eq!(plog.state.command_pid, None);
    assert_eq!(exit_outcome(&plog.reason.unwrap()), Err(IoFault::Errno(enoent)));
}

#[test]
fn forwarded_interrupt_reaches_the_command_and_reports_back() {
    let sigs = platform_signals();
    let unrelated = 999;

    // Parent: an interrupt from an unrelated process is queued and leaves
    // once the backchannel is writable.
    let parent_events = vec![
        ParentEvent::Caught {
            info: SignalInfo { signal: SIGINT, signaler_pid: unrelated, user_signaled: true },
            signaler_pgrp: Some(unrelated),
            wait: None,
        },
        ParentEvent::Writable(SendOutcome::Sent),
    ];
    let plog = run_parent_session(MONITOR_PID, SUDO_PID, sigs, &parent_events);
    assert_eq!(
        plog.sent,
        vec![MonitorMessage::ExecCommand, MonitorMessage::Signal(SIGINT)]
    );

    // Monitor: the forwarded interrupt is delivered to the command, whose
    // death by that signal closes the session.
    let events = vec![
        MonitorEvent::Backchannel(RecvOutcome::Received(MonitorMessage::Signal(SIGINT))),
        sigchld_event(WaitOutcome::Signaled(SIGINT), None),
    ];
    let log = run_monitor_session(COMMAND_PID, MONITOR_PGRP, sigs, &events);
    assert!(log.actions.contains(&MonitorAction::Deliver { pid: COMMAND_PID, signal: SIGINT }));
    assert_eq!(log.sent.last(), Some(&ParentMessage::CommandSignal(SIGINT)));
    assert_eq!(log.reason, Some(StopReason::Exit(WaitOutcome::Signaled(SIGINT))));
}

#[test]
fn job_control_stop_reports_status_and_foreground_token_resumes() {
    let sigs = platform_signals();
    let raw_status = 0x137f;
    let shell_pgrp = 200;

    let events = vec![
        // The interactive shell stops itself; the follower's foreground
        // group at that moment is recorded for the later resume.
        sigchld_event(
            WaitOutcome::Stopped { signal: SIGTSTP, raw: raw_status },
            Some(shell_pgrp),
        ),
        // The parent's foreground continue token arrives.
        MonitorEvent::Backchannel(RecvOutcome::Received(MonitorMessage::Signal(SIGCONT_FG))),
    ];
    let log = run_monitor_session(COMMAND_PID, MONITOR_PGRP, sigs, &events);
    assert!(log.sent.contains(&ParentMessage::CommandStatus(raw_status)));
    assert!(log.actions.contains(&MonitorAction::ForegroundResume {
        pid: COMMAND_PID,
        pgrp: shell_pgrp,
        cont: SIGCONT,
    }));
    assert_eq!(log.reason, None);

    // The parent treats the stop notification as informational.
    let parent_events = vec![
        ParentEvent::Backchannel(RecvOutcome::Received(ParentMessage::CommandPid(COMMAND_PID))),
        ParentEvent::Backchannel(RecvOutcome::Received(ParentMessage::CommandStatus(raw_status))),
    ];
    let plog = run_parent_session(MONITOR_PID, SUDO_PID, sigs, &parent_events);
    assert!(plog.reason.is_none());
}

#[test]
fn pid_announcement_always_comes_first() {
    let sigs = platform_signals();
    let events = vec![
        MonitorEvent::ErrPipe(RecvOutcome::Interrupted),
        sigchld_event(WaitOutcome::Stopped { signal: SIGTSTP, raw: 1 }, None),
        sigchld_event(WaitOutcome::Exited(0), None),
    ];
    let log = run_monitor_session(COMMAND_PID, MONITOR_PGRP, sigs, &events);
    assert_eq!(log.sent[0], ParentMessage::CommandPid(COMMAND_PID));
    assert_eq!(log.sent.iter().filter(|m| matches!(m, ParentMessage::CommandPid(_))).count(), 1);
    let finals = log
        .sent
        .iter()
        .enumerate()
        .filter(|(_, m)| {
            matches!(m, ParentMessage::CommandExit(_) | ParentMessage::CommandSignal(_))
        })
        .collect::<Vec<_>>();
    assert_eq!(finals.len(), 1);
    assert_eq!(finals[0].0, log.sent.len() - 1);
}

#[test]
fn green_light_leaves_first_and_only_once() {
    let sigs = platform_signals();
    let unrelated = 999;
    let parent_events = vec![
        ParentEvent::Caught {
            info: SignalInfo { signal: SIGTERM, signaler_pid: unrelated, user_signaled: true },
            signaler_pgrp: Some(unrelated),
            wait: None,
        },
        ParentEvent::Writable(SendOutcome::Retry),
        ParentEvent::Writable(SendOutcome::Sent),
    ];
    let plog = run_parent_session(MONITOR_PID, SUDO_PID, sigs, &parent_events);
    assert_eq!(plog.sent[0], MonitorMessage::ExecCommand);
    assert_eq!(
        plog.sent.iter().filter(|m| matches!(m, MonitorMessage::ExecCommand)).count(),
        1
    );
}

#[test]
fn interrupted_receives_do_not_alter_the_parent_outcome() {
    let sigs = platform_signals();
    let with_noise = vec![
        ParentEvent::Backchannel(RecvOutcome::Interrupted),
        ParentEvent::Backchannel(RecvOutcome::Received(ParentMessage::CommandPid(COMMAND_PID))),
        ParentEvent::Backchannel(RecvOutcome::Interrupted),
        ParentEvent::Backchannel(RecvOutcome::Received(ParentMessage::CommandExit(3))),
    ];
    let quiet = vec![
        ParentEvent::Backchannel(RecvOutcome::Received(ParentMessage::CommandPid(COMMAND_PID))),
        ParentEvent::Backchannel(RecvOutcome::Received(ParentMessage::CommandExit(3))),
    ];
    let noisy_log = run_parent_session(MONITOR_PID, SUDO_PID, sigs, &with_noise);
    let quiet_log = run_parent_session(MONITOR_PID, SUDO_PID, sigs, &quiet);
    assert_eq!(noisy_log.reason, quiet_log.reason);
    assert_eq!(noisy_log.sent, quiet_log.sent);
    assert_eq!(noisy_log.state.command_pid, quiet_log.state.command_pid);
}

#[test]
fn interrupted_outcomes_do_not_alter_the_exit_reason() {
    let sigs = platform_signals();
    let with_noise = vec![
        MonitorEvent::Backchannel(RecvOutcome::Interrupted),
        MonitorEvent::ErrPipe(RecvOutcome::Interrupted),
        sigchld_event(WaitOutcome::Exited(7), None),
        MonitorEvent::Backchannel(RecvOutcome::Interrupted),
    ];
    let quiet = vec![sigchld_event(WaitOutcome::Exited(7), None)];
    let noisy_log = run_monitor_session(COMMAND_PID, MONITOR_PGRP, sigs, &with_noise);
    let quiet_log = run_monitor_session(COMMAND_PID, MONITOR_PGRP, sigs, &quiet);
    assert_eq!(noisy_log.reason, quiet_log.reason);
    assert_eq!(noisy_log.sent, quiet_log.sent);
}
