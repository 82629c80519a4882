//! The signal numbers the engine dispatches on.
//!
//! The state machines never assume which number a platform gives a signal;
//! they carry this table and compare against its fields, so their contracts
//! hold on any platform. The two continue tokens are this engine's own:
//! they travel only over the backchannel and are negative, so they can
//! never collide with a real signal number.

use vstd::prelude::*;

verus! {

/// Backchannel-only token: resume the command in the foreground (restore
/// its process group on the follower, then continue it).
pub const SIGCONT_FG: i32 = -2;

/// Backchannel-only token: resume the command in the background (keep the
/// monitor's process group on the follower, then continue it).
pub const SIGCONT_BG: i32 = -3;

/// The platform's numbers for the signals the engine treats specially.
#[derive(Clone, Copy, Debug, PartialEq, Eq, Structural)]
pub struct SignalTable {
    /// Child status changed.
    pub sigchld: i32,
    /// Continue a stopped process.
    pub sigcont: i32,
    /// Window size changed.
    pub sigwinch: i32,
    /// Timer elapsed; the engine turns it into graceful termination.
    pub sigalrm: i32,
}

impl SignalTable {
    /// Real signal numbers are positive and pairwise distinct; in
    /// particular they can never equal the negative continue tokens.
    pub open spec fn wf(&self) -> bool {
        &&& self.sigchld > 0
        &&& self.sigcont > 0
        &&& self.sigwinch > 0
        &&& self.sigalrm > 0
        &&& self.sigchld != self.sigcont
        &&& self.sigchld != self.sigwinch
        &&& self.sigchld != self.sigalrm
        &&& self.sigcont != self.sigwinch
        &&& self.sigcont != self.sigalrm
        &&& self.sigwinch != self.sigalrm
    }
}

/// Relies on `signal_hook::consts`: `SIGCHLD`, `SIGCONT`, `SIGWINCH` and
/// `SIGALRM` are the platform's numbers for four distinct signals, and
/// POSIX signal numbers are positive.
#[verifier::external_body]
pub fn platform_signals() -> (t: SignalTable)
    ensures
        t.wf(),
{
    SignalTable {
        sigchld: signal_hook::consts::SIGCHLD,
        sigcont: signal_hook::consts::SIGCONT,
        sigwinch: signal_hook::consts::SIGWINCH,
        sigalrm: signal_hook::consts::SIGALRM,
    }
}

} // verus!
