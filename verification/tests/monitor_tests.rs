use pty_exec::event::{LoopControl, StopReason};
use pty_exec::messages::{
    IoFault, MonitorMessage, ParentMessage, RecvOutcome, SignalInfo, WaitOutcome,
};
use pty_exec::monitor::{
    is_self_terminating, MonitorAction, MonitorSignalDecision, MonitorState,
};
use pty_exec::signals::{SignalTable, SIGCONT_BG, SIGCONT_FG};

fn table() -> SignalTable {
    SignalTable { sigchld: 17, sigcont: 18, sigwinch: 28, sigalrm: 14 }
}

#[test]
fn signal_from_the_command_itself_is_self_terminating() {
    assert!(is_self_terminating(100, 100, 100, None));
}

#[test]
fn signal_from_the_commands_group_is_self_terminating() {
    assert!(is_self_terminating(101, 100, 100, Some(100)));
}

#[test]
fn kernel_signal_is_not_self_terminating() {
    assert!(!is_self_terminating(0, 100, 100, Some(100)));
}

#[test]
fn unrelated_signaler_is_not_self_terminating() {
    assert!(!is_self_terminating(999, 100, 100, Some(999)));
    assert!(!is_self_terminating(999, 100, 100, None));
}

#[test]
fn alarm_becomes_graceful_termination() {
    let st = MonitorState::new(100, 7, table());
    assert_eq!(st.send_signal(14, 100), MonitorAction::Terminate { pid: 100 });
}

#[test]
fn foreground_token_restores_command_group_then_continues() {
    let st = MonitorState::new(100, 7, table());
    assert_eq!(
        st.send_signal(SIGCONT_FG, 100),
        MonitorAction::ForegroundResume { pid: 100, pgrp: 100, cont: 18 }
    );
}

#[test]
fn background_token_keeps_monitor_group_then_continues() {
    let st = MonitorState::new(100, 7, table());
    assert_eq!(
        st.send_signal(SIGCONT_BG, 100),
        MonitorAction::BackgroundResume { pid: 100, pgrp: 7, cont: 18 }
    );
}

#[test]
fn ordinary_signal_is_delivered_as_it_is() {
    let st = MonitorState::new(100, 7, table());
    assert_eq!(st.send_signal(2, 100), MonitorAction::Deliver { pid: 100, signal: 2 });
}

#[test]
fn user_signal_from_command_group_is_dropped() {
    let st = MonitorState::new(100, 7, table());
    let info = SignalInfo { signal: 15, signaler_pid: 100, user_signaled: true };
    assert_eq!(st.on_signal(&info, None), MonitorSignalDecision::Ignore);
    let info = SignalInfo { signal: 15, signaler_pid: 101, user_signaled: true };
    assert_eq!(st.on_signal(&info, Some(100)), MonitorSignalDecision::Ignore);
}

#[test]
fn same_signal_from_elsewhere_is_forwarded() {
    let st = MonitorState::new(100, 7, table());
    let info = SignalInfo { signal: 15, signaler_pid: 999, user_signaled: true };
    assert_eq!(
        st.on_signal(&info, Some(999)),
        MonitorSignalDecision::Act(MonitorAction::Deliver { pid: 100, signal: 15 })
    );
}

#[test]
fn child_status_signal_asks_for_a_reap() {
    let st = MonitorState::new(100, 7, table());
    let info = SignalInfo { signal: 17, signaler_pid: 0, user_signaled: false };
    assert_eq!(st.on_signal(&info, None), MonitorSignalDecision::ReapCommand { pid: 100 });
}

#[test]
fn signals_after_the_command_is_gone_are_ignored() {
    let mut st = MonitorState::new(100, 7, table());
    let mut control = LoopControl::<IoFault, WaitOutcome>::new();
    st.handle_sigchld(&WaitOutcome::Exited(0), None, &mut control);
    let info = SignalInfo { signal: 15, signaler_pid: 999, user_signaled: true };
    assert_eq!(st.on_signal(&info, Some(999)), MonitorSignalDecision::Ignore);
}

#[test]
fn reaped_exit_stops_the_loop_and_clears_the_pid() {
    let mut st = MonitorState::new(100, 7, table());
    let mut control = LoopControl::<IoFault, WaitOutcome>::new();
    let msg = st.handle_sigchld(&WaitOutcome::Exited(3), None, &mut control);
    assert_eq!(msg, None);
    assert_eq!(st.command_pid, None);
    assert_eq!(control.into_reason(), Some(StopReason::Exit(WaitOutcome::Exited(3))));
}

#[test]
fn stop_records_the_foreground_group_and_reports_upstream() {
    let mut st = MonitorState::new(100, 7, table());
    let mut control = LoopControl::<IoFault, WaitOutcome>::new();
    let msg = st.handle_sigchld(
        &WaitOutcome::Stopped { signal: 20, raw: 0x137f },
        Some(200),
        &mut control,
    );
    assert_eq!(msg, Some(ParentMessage::CommandStatus(0x137f)));
    assert_eq!(st.command_pgrp, 200);
    assert_eq!(st.command_pid, Some(100));
    assert!(!control.should_stop());
}

#[test]
fn stop_with_monitor_group_in_foreground_keeps_old_command_group() {
    let mut st = MonitorState::new(100, 7, table());
    let mut control = LoopControl::<IoFault, WaitOutcome>::new();
    st.handle_sigchld(&WaitOutcome::Stopped { signal: 20, raw: 1 }, Some(7), &mut control);
    assert_eq!(st.command_pgrp, 100);
}

#[test]
fn interrupted_reads_change_nothing() {
    let st = MonitorState::new(100, 7, table());
    let mut control = LoopControl::<IoFault, WaitOutcome>::new();
    let a = st.read_backchannel(&RecvOutcome::Interrupted, &mut control);
    assert_eq!(a, MonitorAction::Idle);
    assert!(!control.should_stop());
    let msg = st.read_errpipe(&RecvOutcome::Interrupted, &mut control);
    assert_eq!(msg, None);
    assert!(!control.should_stop());
}

#[test]
fn failed_backchannel_read_breaks_the_loop() {
    let st = MonitorState::new(100, 7, table());
    let mut control = LoopControl::<IoFault, WaitOutcome>::new();
    st.read_backchannel(&RecvOutcome::Failed(IoFault::Errno(5)), &mut control);
    assert_eq!(control.into_reason(), Some(StopReason::Break(IoFault::Errno(5))));
}

#[test]
fn forwarded_signal_reaches_the_command() {
    let st = MonitorState::new(100, 7, table());
    let mut control = LoopControl::<IoFault, WaitOutcome>::new();
    let a = st.read_backchannel(
        &RecvOutcome::Received(MonitorMessage::Signal(2)),
        &mut control,
    );
    assert_eq!(a, MonitorAction::Deliver { pid: 100, signal: 2 });
}

#[test]
fn exec_failure_errno_is_forwarded_upstream() {
    let st = MonitorState::new(100, 7, table());
    let mut control = LoopControl::<IoFault, WaitOutcome>::new();
    let msg = st.read_errpipe(&RecvOutcome::Received(2), &mut control);
    assert_eq!(msg, Some(ParentMessage::IoError(2)));
    assert!(!control.should_stop());
}

#[test]
fn teardown_always_restores_the_monitor_group() {
    let st = MonitorState::new(100, 7, table());
    let t = st.teardown(&StopReason::Exit(WaitOutcome::Exited(0)));
    assert_eq!(t.restore_pgrp, 7);
    assert_eq!(t.message, Some(ParentMessage::CommandExit(0)));
    let t = st.teardown(&StopReason::Break(IoFault::Eof));
    assert_eq!(t.restore_pgrp, 7);
    assert_eq!(t.message, Some(ParentMessage::ShortRead));
    let t = st.teardown(&StopReason::Break(IoFault::Errno(9)));
    assert_eq!(t.message, Some(ParentMessage::IoError(9)));
    let t = st.teardown(&StopReason::Break(IoFault::Other));
    assert_eq!(t.message, None);
}
