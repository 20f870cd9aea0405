//! The lifecycle manager for the external automation session.
//!
//! The manager owns the session's lifecycle state and decides every step of
//! acquiring and releasing it; the caller performs the effects each decision
//! names (probing for the driver process by name, spawning it, waiting the
//! settle delay, connecting to the local endpoint, closing the handle,
//! terminating the process) and reports their outcomes back. The handle
//! itself lives with the caller in a single mutually-exclusive slot; nothing
//! here or elsewhere in the core ever touches it directly.

use vstd::prelude::*;

use crate::errors::AppError;

verus! {

/// How many times a failed driver launch is retried before giving up.
pub const MAX_LAUNCH_ATTEMPTS: u8 = 3;

/// How many times a failed session connect is retried before giving up.
pub const MAX_CONNECT_ATTEMPTS: u8 = 3;

/// The lifecycle state of the external automation session.
#[derive(Clone, Copy, Debug, PartialEq, Eq, Structural)]
pub enum SessionState {
    /// No process, no handle.
    Absent,
    /// Process launch requested; no handle yet.
    Starting,
    /// Handle established and usable.
    Connected,
    /// Terminated and released; terminal, entered exactly once.
    Closed,
}

/// The first decision of `ensure_session`.
#[derive(Clone, Copy, Debug, PartialEq, Eq, Structural)]
pub enum EnsureStep {
    /// A session is already established; keep the existing handle.
    AlreadyConnected,
    /// Check whether the driver process is already running, by name.
    ProbeDriver,
    /// Shutdown has begun; the session will not be reopened.
    Unavailable,
}

/// The decision after the driver process has been probed for.
#[derive(Clone, Copy, Debug, PartialEq, Eq, Structural)]
pub enum ProbeStep {
    /// The driver is already running: connect to the endpoint directly.
    Connect,
    /// Launch the driver, wait the settle delay, then connect.
    LaunchThenSettle,
}

/// The decision after a launch or connect attempt failed.
#[derive(Debug)]
pub enum FailureDecision {
    /// Try the same step again after a bounded backoff.
    RetryAfterBackoff,
    /// The bounded retries are exhausted; fail with this error.
    Fatal(AppError),
}

/// What a teardown asks the caller to do. Either effect is requested at most
/// once over the session's whole lifetime.
#[derive(Clone, Copy, Debug, PartialEq, Eq, Structural)]
pub struct TeardownPlan {
    /// Request a graceful close of the session handle and discard it,
    /// whatever the close outcome.
    pub close_handle: bool,
    /// Terminate every driver process by name, so none outlives the
    /// application.
    pub kill_process: bool,
}

/// The mathematical value of a [`SessionManager`].
pub ghost struct SessionView {
    pub state: SessionState,
    pub launch_attempts: u8,
    pub connect_attempts: u8,
}

/// The teardown transition: from any state the session ends `Closed`; the
/// handle is closed only if one was established, and the driver process is
/// killed only if its launch had ever been requested.
pub open spec fn spec_teardown(s: SessionView) -> (SessionView, TeardownPlan) {
    (
        SessionView { state: SessionState::Closed, ..s },
        TeardownPlan {
            close_handle: s.state is Connected,
            kill_process: s.state is Connected || s.state is Starting,
        },
    )
}

/// Owns the session lifecycle; exposes acquire (`ensure_begin` and the
/// step-outcome methods) and release (`teardown`) operations.
pub struct SessionManager {
    state: SessionState,
    launch_attempts: u8,
    connect_attempts: u8,
}

impl View for SessionManager {
    type V = SessionView;

    closed spec fn view(&self) -> SessionView {
        SessionView {
            state: self.state,
            launch_attempts: self.launch_attempts,
            connect_attempts: self.connect_attempts,
        }
    }
}

impl SessionManager {
    /// A manager for a session that does not exist yet.
    pub fn new() -> (r: SessionManager)
        ensures
            r@ == (SessionView {
                state: SessionState::Absent,
                launch_attempts: 0,
                connect_attempts: 0,
            }),
    {
        SessionManager { state: SessionState::Absent, launch_attempts: 0, connect_attempts: 0 }
    }

    /// The current lifecycle state.
    pub fn state(&self) -> (r: SessionState)
        ensures
            r == self@.state,
    {
        self.state
    }

    /// Begins `ensure_session`: a no-op while already connected, a refusal
    /// once shutdown has begun, and otherwise a probe for the driver
    /// process.
    pub fn ensure_begin(&mut self) -> (r: EnsureStep)
        ensures
            old(self)@.state is Connected ==> r == EnsureStep::AlreadyConnected && final(self)@
                == old(self)@,
            old(self)@.state is Closed ==> r == EnsureStep::Unavailable && final(self)@ == old(
                self,
            )@,
            old(self)@.state is Absent || old(self)@.state is Starting ==> r
                == EnsureStep::ProbeDriver && final(self)@ == (SessionView {
                state: SessionState::Starting,
                ..old(self)@
            }),
    {
        match self.state {
            SessionState::Connected => EnsureStep::AlreadyConnected,
            SessionState::Closed => EnsureStep::Unavailable,
            SessionState::Absent => {
                self.state = SessionState::Starting;
                EnsureStep::ProbeDriver
            },
            SessionState::Starting => {
                self.state = SessionState::Starting;
                EnsureStep::ProbeDriver
            },
        }
    }

    /// Decides on the probe's outcome: connect directly to a driver that is
    /// already running, else launch one and wait the settle delay first.
    pub fn on_probe(&mut self, running: bool) -> (r: ProbeStep)
        requires
            old(self)@.state is Starting,
        ensures
            final(self)@ == old(self)@,
            r == ProbeStep::Connect <==> running,
            r == ProbeStep::LaunchThenSettle <==> !running,
    {
        if running {
            ProbeStep::Connect
        } else {
            ProbeStep::LaunchThenSettle
        }
    }

    /// Decides after a failed driver launch: retry with backoff until the
    /// bounded attempts are spent, then fail with `ProcessLaunch`.
    pub fn on_launch_failure(&mut self) -> (r: FailureDecision)
        requires
            old(self)@.state is Starting,
        ensures
            final(self)@.state == old(self)@.state,
            final(self)@.connect_attempts == old(self)@.connect_attempts,
            final(self)@.launch_attempts == (if old(self)@.launch_attempts < MAX_LAUNCH_ATTEMPTS {
                old(self)@.launch_attempts + 1
            } else {
                old(self)@.launch_attempts as int
            }),
            r matches FailureDecision::RetryAfterBackoff <==> final(self)@.launch_attempts
                < MAX_LAUNCH_ATTEMPTS,
            r matches FailureDecision::Fatal(e) ==> e matches AppError::ProcessLaunch,
    {
        if self.launch_attempts < MAX_LAUNCH_ATTEMPTS {
            self.launch_attempts = self.launch_attempts + 1;
        }
        if self.launch_attempts < MAX_LAUNCH_ATTEMPTS {
            FailureDecision::RetryAfterBackoff
        } else {
            FailureDecision::Fatal(AppError::ProcessLaunch)
        }
    }

    /// Records an established session handle.
    pub fn on_connect_success(&mut self)
        requires
            old(self)@.state is Starting,
        ensures
            final(self)@ == (SessionView { state: SessionState::Connected, ..old(self)@ }),
    {
        self.state = SessionState::Connected;
    }

    /// Decides after a failed connect: retry with backoff until the bounded
    /// attempts are spent, then fail with `SessionConnect`.
    pub fn on_connect_failure(&mut self) -> (r: FailureDecision)
        requires
            old(self)@.state is Starting,
        ensures
            final(self)@.state == old(self)@.state,
            final(self)@.launch_attempts == old(self)@.launch_attempts,
            final(self)@.connect_attempts == (if old(self)@.connect_attempts
                < MAX_CONNECT_ATTEMPTS {
                old(self)@.connect_attempts + 1
            } else {
                old(self)@.connect_attempts as int
            }),
            r matches FailureDecision::RetryAfterBackoff <==> final(self)@.connect_attempts
                < MAX_CONNECT_ATTEMPTS,
            r matches FailureDecision::Fatal(e) ==> e matches AppError::SessionConnect,
    {
        if self.connect_attempts < MAX_CONNECT_ATTEMPTS {
            self.connect_attempts = self.connect_attempts + 1;
        }
        if self.connect_attempts < MAX_CONNECT_ATTEMPTS {
            FailureDecision::RetryAfterBackoff
        } else {
            FailureDecision::Fatal(AppError::SessionConnect)
        }
    }

    /// Tears the session down: the end state is always `Closed`, the handle
    /// is closed exactly when one exists, and the driver process is killed
    /// exactly when a launch had been requested and not yet torn down. On a
    /// session already `Closed` or still `Absent` this is a no-op that
    /// requests no effect at all.
    pub fn teardown(&mut self) -> (plan: TeardownPlan)
        ensures
            final(self)@ == spec_teardown(old(self)@).0,
            plan == spec_teardown(old(self)@).1,
    {
        let plan = TeardownPlan {
            close_handle: matches!(self.state, SessionState::Connected),
            kill_process: matches!(self.state, SessionState::Connected)
                || matches!(self.state, SessionState::Starting),
        };
        self.state = SessionState::Closed;
        plan
    }
}

/// Teardown is idempotent: it always ends `Closed`, and a second teardown
/// leaves that state unchanged and requests neither a redundant close nor a
/// redundant process kill.
pub proof fn lemma_teardown_idempotent(s: SessionView)
    ensures
        spec_teardown(s).0.state is Closed,
        spec_teardown(spec_teardown(s).0).0 == spec_teardown(s).0,
        !spec_teardown(spec_teardown(s).0).1.close_handle,
        !spec_teardown(spec_teardown(s).0).1.kill_process,
{
}

} // verus!
