use crate::marker::{is_ready_line, signals_ready};
use crate::status::{BackendStatus, Notice};
use vstd::prelude::*;

verus! {

/// How many times the health endpoint is asked before the shell gives up.
pub const MAX_ATTEMPTS: u32 = 30;

/// The pause after an attempt that did not succeed, in milliseconds.
pub const RETRY_DELAY_MS: u64 = 500;

/// How long one request to the health endpoint may take, in seconds.
pub const REQUEST_TIMEOUT_SECS: u64 = 2;

/// Attempts that could not reach the endpoint are reported once in this many.
pub const PROGRESS_EVERY: u32 = 5;

/// One thing that the child process did, as the shell observed it.
#[derive(Debug, PartialEq, Eq)]
pub enum OutputEvent {
    /// A line on standard output, as raw bytes.
    Stdout(Vec<u8>),
    /// A line on standard error, as raw bytes.
    Stderr(Vec<u8>),
    /// The streams could not be read; the text says why.
    Error(String),
    /// The process exited, with this exit code if it had one.
    Terminated(Option<i32>),
    /// Anything else.
    Other,
}

/// How one request to the health endpoint ended.
#[derive(Clone, Copy, Debug, PartialEq, Eq)]
pub enum HealthOutcome {
    /// The endpoint answered with this HTTP status code.
    Status(u16),
    /// No answer came: refused, timed out, or broken off.
    Unreachable,
}

/// What to do after one event of the child process.
#[derive(Clone, Copy, Debug, PartialEq, Eq)]
pub struct MonitorStep {
    /// What to publish to the frontend, if anything.
    pub notice: Option<Notice>,
    /// Whether to go on reading the child's output.
    pub go_on: bool,
}

/// What to do after one request to the health endpoint: wait `delay_ms`,
/// then publish `notice`, then make attempt `next_attempt`.
#[derive(Clone, Copy, Debug, PartialEq, Eq)]
pub struct PollStep {
    /// What to publish to the frontend once the delay has passed, if anything.
    pub notice: Option<Notice>,
    /// How long to wait first, in milliseconds.
    pub delay_ms: u64,
    /// The number of the attempt to make next; `None` ends the polling.
    pub next_attempt: Option<u32>,
    /// Whether the outcome is worth a line in the log.
    pub report: bool,
}

/// The supervisor's whole state. Every value of it is a state the transitions
/// accept: none of them has a precondition.
#[derive(Clone, Copy, Debug, PartialEq, Eq)]
pub struct Supervisor {
    /// What is known of the backend.
    pub status: BackendStatus,
    /// The child's exit has been seen: its output is no longer read.
    pub child_exited: bool,
    /// Requests to the health endpoint that have ended.
    pub attempts: u32,
    /// The health endpoint is still being asked.
    pub polling: bool,
}

/// Asks `reqwest::StatusCode` whether `code` is a success. Trusted, not
/// proved: `StatusCode::from_u16` accepts the codes from 100 to 999 and
/// refuses all others, and `StatusCode::is_success` holds of an accepted code
/// exactly when it lies in the range 200 to 299. A refused code is no success.
#[verifier::external_body]
fn status_is_success(code: u16) -> (r: bool)
    ensures
        r == (200 <= code <= 299),
{
    match reqwest::StatusCode::from_u16(code) {
        Ok(status) => status.is_success(),
        Err(_) => false,
    }
}

impl HealthOutcome {
    /// An answer in the range 200 to 299 is a success; nothing else is.
    pub open spec fn healthy(self) -> bool {
        match self {
            HealthOutcome::Status(code) => 200 <= code <= 299,
            HealthOutcome::Unreachable => false,
        }
    }

    pub fn is_success(&self) -> (r: bool)
        ensures
            r == self.healthy(),
    {
        match self {
            HealthOutcome::Status(code) => status_is_success(*code),
            HealthOutcome::Unreachable => false,
        }
    }

    /// Whether attempt number `attempt`, ending in this outcome, is reported:
    /// every answer is, and every fifth attempt that got none.
    pub open spec fn reported(self, attempt: int) -> bool {
        match self {
            HealthOutcome::Status(_) => true,
            HealthOutcome::Unreachable => attempt % (PROGRESS_EVERY as int) == 0,
        }
    }
}

impl OutputEvent {
    /// The event is a line of output that holds a readiness marker.
    pub open spec fn announces_ready(self) -> bool {
        match self {
            OutputEvent::Stdout(line) => is_ready_line(line@),
            OutputEvent::Stderr(line) => is_ready_line(line@),
            _ => false,
        }
    }

    /// The event is the child's exit.
    pub open spec fn is_exit(self) -> bool {
        self is Terminated
    }
}

impl MonitorStep {
    /// Nothing to publish, nothing more to read.
    pub open spec fn stopped() -> MonitorStep {
        MonitorStep { notice: None, go_on: false }
    }
}

impl PollStep {
    /// Nothing to do: the polling has ended.
    pub open spec fn idle() -> PollStep {
        PollStep { notice: None, delay_ms: 0, next_attempt: None, report: false }
    }
}

impl Supervisor {
    /// The state at start: nothing known, nothing asked yet.
    pub open spec fn initial() -> Supervisor {
        Supervisor {
            status: BackendStatus::NotReady,
            child_exited: false,
            attempts: 0,
            polling: true,
        }
    }

    /// The budget of attempts is kept: no more than `MAX_ATTEMPTS` requests
    /// have ended, and polling is over once all of them are used.
    pub open spec fn within_budget(self) -> bool {
        &&& self.attempts <= MAX_ATTEMPTS
        &&& self.polling ==> self.attempts < MAX_ATTEMPTS
    }

    pub fn new() -> (s: Supervisor)
        ensures
            s == Supervisor::initial(),
            s.within_budget(),
    {
        Supervisor {
            status: BackendStatus::NotReady,
            child_exited: false,
            attempts: 0,
            polling: true,
        }
    }

    /// The backend's status.
    pub fn status(&self) -> (r: BackendStatus)
        ensures
            r == self.status,
    {
        self.status
    }

    /// Whether the backend is ready right now. After the child's exit it is
    /// not, until the health endpoint says otherwise.
    pub fn is_backend_ready(&self) -> (r: bool)
        ensures
            r == self.status.ready(),
    {
        self.status.is_ready()
    }

    /// The health endpoint may still be asked: polling has not ended and the
    /// budget of attempts is not used up.
    pub open spec fn poll_open(self) -> bool {
        self.polling && self.attempts < MAX_ATTEMPTS
    }

    /// The number of the request to make now, counted from 1, or `None` when
    /// polling has ended.
    pub fn next_attempt(&self) -> (r: Option<u32>)
        ensures
            r == (if self.poll_open() {
                Some((self.attempts + 1) as u32)
            } else {
                None
            }),
    {
        if self.polling && self.attempts < MAX_ATTEMPTS {
            Some(self.attempts + 1)
        } else {
            None
        }
    }

    /// The state after one event of the child process.
    pub open spec fn after_output(self, event: OutputEvent) -> Supervisor {
        if self.child_exited {
            self
        } else if event.announces_ready() {
            Supervisor { status: BackendStatus::Ready, ..self }
        } else if let OutputEvent::Terminated(code) = event {
            Supervisor { status: BackendStatus::Terminated(code), child_exited: true, ..self }
        } else {
            self
        }
    }

    /// What one event of the child process asks of the shell.
    pub open spec fn output_step(self, event: OutputEvent) -> MonitorStep {
        if self.child_exited {
            MonitorStep::stopped()
        } else if event.announces_ready() {
            MonitorStep { notice: self.status.ready_notice(), go_on: true }
        } else if let OutputEvent::Terminated(code) = event {
            MonitorStep { notice: Some(Notice::Terminated(code)), go_on: false }
        } else {
            MonitorStep { notice: None, go_on: true }
        }
    }

    /// Takes one event of the child process: a line with a readiness marker
    /// makes the backend ready, the exit makes it terminated and ends the
    /// reading, anything else changes nothing. Events after the exit are
    /// ignored.
    pub fn on_output(self, event: &OutputEvent) -> (r: (Supervisor, MonitorStep))
        ensures
            r.0 == self.after_output(*event),
            r.1 == self.output_step(*event),
            self.within_budget() ==> r.0.within_budget(),
    {
        if self.child_exited {
            return (self, MonitorStep { notice: None, go_on: false });
        }
        match event {
            OutputEvent::Stdout(line) | OutputEvent::Stderr(line) => {
                if signals_ready(line.as_slice()) {
                    let (status, notice) = self.status.signal_ready();
                    (Supervisor { status, ..self }, MonitorStep { notice, go_on: true })
                } else {
                    (self, MonitorStep { notice: None, go_on: true })
                }
            },
            OutputEvent::Terminated(code) => (
                Supervisor {
                    status: BackendStatus::Terminated(*code),
                    child_exited: true,
                    ..self
                },
                MonitorStep { notice: Some(Notice::Terminated(*code)), go_on: false },
            ),
            _ => (self, MonitorStep { notice: None, go_on: true }),
        }
    }

    /// The state after one request to the health endpoint.
    pub open spec fn after_health(self, outcome: HealthOutcome) -> Supervisor {
        if !self.poll_open() {
            self
        } else if outcome.healthy() {
            Supervisor {
                status: BackendStatus::Ready,
                attempts: (self.attempts + 1) as u32,
                polling: false,
                ..self
            }
        } else {
            Supervisor {
                attempts: (self.attempts + 1) as u32,
                polling: self.attempts + 1 < MAX_ATTEMPTS,
                ..self
            }
        }
    }

    /// What one request to the health endpoint asks of the shell.
    pub open spec fn health_step(self, outcome: HealthOutcome) -> PollStep {
        if !self.poll_open() {
            PollStep::idle()
        } else if outcome.healthy() {
            PollStep {
                notice: self.status.ready_notice(),
                delay_ms: 0,
                next_attempt: None,
                report: true,
            }
        } else if self.attempts + 1 < MAX_ATTEMPTS {
            PollStep {
                notice: None,
                delay_ms: RETRY_DELAY_MS,
                next_attempt: Some((self.attempts + 2) as u32),
                report: outcome.reported(self.attempts + 1),
            }
        } else {
            PollStep {
                notice: Some(Notice::Failed),
                delay_ms: RETRY_DELAY_MS,
                next_attempt: None,
                report: outcome.reported(self.attempts + 1),
            }
        }
    }

    /// Takes the outcome of one request to the health endpoint. A success
    /// makes the backend ready and ends the polling at once. Any other outcome
    /// is followed by a pause, and then by the next attempt or, after the last
    /// one, by the `Failed` notice; the status is left as it was. Outcomes
    /// handed in after the polling has ended are ignored.
    pub fn on_health(self, outcome: HealthOutcome) -> (r: (Supervisor, PollStep))
        ensures
            r.0 == self.after_health(outcome),
            r.1 == self.health_step(outcome),
            self.within_budget() ==> r.0.within_budget(),
            r.1.next_attempt is Some ==> r.1.next_attempt == Some((r.0.attempts + 1) as u32)
                && r.0.poll_open(),
    {
        if !(self.polling && self.attempts < MAX_ATTEMPTS) {
            return (
                self,
                PollStep { notice: None, delay_ms: 0, next_attempt: None, report: false },
            );
        }
        let attempt: u32 = self.attempts + 1;
        if outcome.is_success() {
            let (status, notice) = self.status.signal_ready();
            (
                Supervisor { status, attempts: attempt, polling: false, ..self },
                PollStep { notice, delay_ms: 0, next_attempt: None, report: true },
            )
        } else {
            let report: bool = match outcome {
                HealthOutcome::Status(_) => true,
                HealthOutcome::Unreachable => attempt % PROGRESS_EVERY == 0,
            };
            if attempt < MAX_ATTEMPTS {
                (
                    Supervisor { attempts: attempt, ..self },
                    PollStep {
                        notice: None,
                        delay_ms: RETRY_DELAY_MS,
                        next_attempt: Some(attempt + 1),
                        report,
                    },
                )
            } else {
                (
                    Supervisor { attempts: attempt, polling: false, ..self },
                    PollStep {
                        notice: Some(Notice::Failed),
                        delay_ms: RETRY_DELAY_MS,
                        next_attempt: None,
                        report,
                    },
                )
            }
        }
    }
}

} // verus!
