use vstd::prelude::*;

verus! {

/// What the shell knows of the backend.
#[derive(Clone, Copy, Debug, PartialEq, Eq)]
pub enum BackendStatus {
    /// No readiness signal has been seen yet.
    NotReady,
    /// The backend announced itself, by its output or by its health endpoint.
    Ready,
    /// The child process exited, with this exit code if it had one.
    Terminated(Option<i32>),
}

/// What is published to the frontend.
#[derive(Clone, Copy, Debug, PartialEq, Eq)]
pub enum Notice {
    /// The backend became ready; the payload is `true`.
    Ready,
    /// The backend never answered; the payload is `failure_message()`.
    Failed,
    /// The child process exited; the payload is its exit code.
    Terminated(Option<i32>),
}

impl BackendStatus {
    /// Only `Ready` counts as ready: a terminated backend reads as not ready.
    pub open spec fn ready(self) -> bool {
        self == BackendStatus::Ready
    }

    pub fn is_ready(&self) -> (r: bool)
        ensures
            r == self.ready(),
    {
        match self {
            BackendStatus::Ready => true,
            _ => false,
        }
    }

    /// The notice owed when a readiness signal arrives in this status: one
    /// `Ready` notice when the status changes, none when it is `Ready` already.
    pub open spec fn ready_notice(self) -> Option<Notice> {
        if self.ready() {
            None
        } else {
            Some(Notice::Ready)
        }
    }

    /// Takes a readiness signal: the new status, always `Ready`, and the
    /// notice to publish, if any.
    pub fn signal_ready(self) -> (r: (BackendStatus, Option<Notice>))
        ensures
            r.0 == BackendStatus::Ready,
            r.1 == self.ready_notice(),
    {
        match self {
            BackendStatus::Ready => (BackendStatus::Ready, None),
            _ => (BackendStatus::Ready, Some(Notice::Ready)),
        }
    }
}

impl Notice {
    /// The name under which the frontend listens for this notice.
    pub open spec fn name(self) -> Seq<char> {
        match self {
            Notice::Ready => "backend-ready"@,
            Notice::Failed => "backend-failed"@,
            Notice::Terminated(_) => "backend-terminated"@,
        }
    }

    pub fn event_name(&self) -> (r: &'static str)
        ensures
            r@ == self.name(),
    {
        match self {
            Notice::Ready => "backend-ready",
            Notice::Failed => "backend-failed",
            Notice::Terminated(_) => "backend-terminated",
        }
    }
}

/// The payload of the `Failed` notice.
pub fn failure_message() -> (r: &'static str)
    ensures
        r@ == "Backend failed to start"@,
{
    "Backend failed to start"
}

} // verus!
