//! Decision core of a privileged-command PTY execution engine.
//!
//! A parent process owns the user's terminal and the PTY leader; a monitor
//! process owns the PTY follower, forks the command and observes it. The two
//! talk over an ordered, framed socket pair (the backchannel) and proxy user
//! signals to the command. This crate holds the verified logic of that
//! engine: the wire codec for backchannel frames, the relay byte buffers,
//! the event-loop stop status, and the state machines that decide what each
//! process does on every message, signal and I/O outcome. The surrounding
//! process plumbing (fork, pty allocation, the actual syscalls) stays
//! outside and feeds plain values in.

pub mod codec;
pub mod event;
pub mod messages;
pub mod monitor;
pub mod parent;
pub mod relay;
pub mod session;
pub mod signals;
