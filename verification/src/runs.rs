//! Whole runs of the supervisor: what holds after a sequence of events of the
//! child process, or of answers of the health endpoint, taken in order.

use crate::status::{BackendStatus, Notice};
use crate::supervisor::{
    HealthOutcome, MonitorStep, OutputEvent, PollStep, Supervisor, MAX_ATTEMPTS, RETRY_DELAY_MS,
};
use vstd::prelude::*;

verus! {

/// The state after the events of the child process in `events`, in order.
pub open spec fn after_events(s: Supervisor, events: Seq<OutputEvent>) -> Supervisor
    decreases events.len(),
{
    if events.len() == 0 {
        s
    } else {
        after_events(s, events.drop_last()).after_output(events.last())
    }
}

/// How many `Terminated` notices the events in `events` give rise to.
pub open spec fn exit_notices(s: Supervisor, events: Seq<OutputEvent>) -> nat
    decreases events.len(),
{
    if events.len() == 0 {
        0
    } else {
        let before = after_events(s, events.drop_last());
        let notice = before.output_step(events.last()).notice;
        exit_notices(s, events.drop_last()) + if notice is Some && notice->0 is Terminated {
            1nat
        } else {
            0nat
        }
    }
}

/// The state after the answers of the health endpoint in `outcomes`, in order.
pub open spec fn after_outcomes(s: Supervisor, outcomes: Seq<HealthOutcome>) -> Supervisor
    decreases outcomes.len(),
{
    if outcomes.len() == 0 {
        s
    } else {
        after_outcomes(s, outcomes.drop_last()).after_health(outcomes.last())
    }
}

/// A run of events sets the exit flag exactly when the child's exit is among
/// them, gives one `Terminated` notice then, and none otherwise.
pub proof fn lemma_exit_seen(s: Supervisor, events: Seq<OutputEvent>)
    requires
        !s.child_exited,
    ensures
        after_events(s, events).child_exited <==> exists|i: int|
            0 <= i < events.len() && events[i].is_exit(),
        exit_notices(s, events) == if after_events(s, events).child_exited {
            1nat
        } else {
            0nat
        },
    decreases events.len(),
{
    if events.len() > 0 {
        let front = events.drop_last();
        lemma_exit_seen(s, front);
        if after_events(s, front).child_exited {
            let i = choose|i: int| 0 <= i < front.len() && front[i].is_exit();
            assert(events[i].is_exit());
        } else if events.last().is_exit() {
            assert(events[events.len() - 1].is_exit());
        } else {
            assert forall|i: int| 0 <= i < events.len() implies !events[i].is_exit() by {
                if i < front.len() {
                    assert(front[i] == events[i]);
                }
            }
        }
    }
}

/// A line with a readiness marker makes the backend ready in the very step
/// that reads it, however many lines came before, as long as the child has
/// not exited by then.
pub proof fn lemma_marker_line_makes_ready(s: Supervisor, events: Seq<OutputEvent>, n: int)
    requires
        !s.child_exited,
        0 <= n < events.len(),
        events[n].announces_ready(),
        forall|i: int| 0 <= i < n ==> !events[i].is_exit(),
    ensures
        after_events(s, events.take(n + 1)).status == BackendStatus::Ready,
        after_events(s, events.take(n + 1)) == after_events(s, events.take(n)).after_output(
            events[n],
        ),
        after_events(s, events.take(n)).output_step(events[n]).go_on,
{
    let upto = events.take(n + 1);
    assert(upto.drop_last() =~= events.take(n));
    assert(upto.last() == events[n]);
    lemma_exit_seen(s, events.take(n));
}

/// The child's exit is recorded with its exit code and published once: the
/// step that reads it gives the `Terminated` notice and ends the reading, and
/// whatever is handed in afterwards changes nothing and publishes nothing.
pub proof fn lemma_exit_is_published_once(
    s: Supervisor,
    code: Option<i32>,
    later: Seq<OutputEvent>,
)
    requires
        !s.child_exited,
    ensures
        s.after_output(OutputEvent::Terminated(code)).status == BackendStatus::Terminated(code),
        s.output_step(OutputEvent::Terminated(code)) == (MonitorStep {
            notice: Some(Notice::Terminated(code)),
            go_on: false,
        }),
        after_events(s.after_output(OutputEvent::Terminated(code)), later) == s.after_output(
            OutputEvent::Terminated(code),
        ),
        forall|e: OutputEvent|
            (#[trigger] s.after_output(OutputEvent::Terminated(code)).output_step(e))
                == MonitorStep::stopped(),
        exit_notices(s, seq![OutputEvent::Terminated(code)] + later) == 1,
{
    let exit = OutputEvent::Terminated(code);
    let t = s.after_output(exit);
    assert(!exit.announces_ready());
    lemma_exited_stays(t, later);
    let all = seq![exit] + later;
    assert(all[0].is_exit());
    lemma_exit_seen(s, all);
}

/// Once the child's exit has been seen, no event changes the state.
pub proof fn lemma_exited_stays(s: Supervisor, events: Seq<OutputEvent>)
    requires
        s.child_exited,
    ensures
        after_events(s, events) == s,
    decreases events.len(),
{
    if events.len() > 0 {
        lemma_exited_stays(s, events.drop_last());
    }
}

/// No run of answers, whatever they are, takes the supervisor over its
/// budget of attempts or touches what is known of the child process.
pub proof fn lemma_budget_is_kept(s: Supervisor, outcomes: Seq<HealthOutcome>)
    requires
        s.within_budget(),
    ensures
        after_outcomes(s, outcomes).within_budget(),
        after_outcomes(s, outcomes).attempts <= s.attempts + outcomes.len(),
        after_outcomes(s, outcomes).child_exited == s.child_exited,
    decreases outcomes.len(),
{
    if outcomes.len() > 0 {
        lemma_budget_is_kept(s, outcomes.drop_last());
    }
}

/// While no attempt succeeds and the budget lasts, a run of answers only
/// counts the attempts: the status stays as it was.
pub proof fn lemma_failures_only_count(s: Supervisor, outcomes: Seq<HealthOutcome>)
    requires
        s.poll_open(),
        s.attempts + outcomes.len() <= MAX_ATTEMPTS,
        forall|i: int| 0 <= i < outcomes.len() ==> !outcomes[i].healthy(),
    ensures
        after_outcomes(s, outcomes) == (Supervisor {
            attempts: (s.attempts + outcomes.len()) as u32,
            polling: s.attempts + outcomes.len() < MAX_ATTEMPTS,
            ..s
        }),
    decreases outcomes.len(),
{
    if outcomes.len() > 0 {
        let front = outcomes.drop_last();
        assert forall|i: int| 0 <= i < front.len() implies !front[i].healthy() by {
            assert(front[i] == outcomes[i]);
        }
        lemma_failures_only_count(s, front);
        assert(!outcomes.last().healthy());
    }
}

/// When attempt `k`, within the budget, is the first to succeed, the backend
/// is ready after it, the `Ready` notice is owed at once unless the backend
/// was ready already, and no further attempt is made: polling has ended, and
/// any answer handed in later is ignored.
pub proof fn lemma_first_success_ends_polling(
    s: Supervisor,
    outcomes: Seq<HealthOutcome>,
    k: int,
)
    requires
        s.polling,
        s.attempts == 0,
        1 <= k <= MAX_ATTEMPTS,
        k <= outcomes.len(),
        forall|i: int| 0 <= i < k - 1 ==> !outcomes[i].healthy(),
        outcomes[k - 1].healthy(),
    ensures
        after_outcomes(s, outcomes.take(k)) == (Supervisor {
            status: BackendStatus::Ready,
            attempts: k as u32,
            polling: false,
            ..s
        }),
        after_outcomes(s, outcomes.take(k - 1)).health_step(outcomes[k - 1]) == (PollStep {
            notice: s.status.ready_notice(),
            delay_ms: 0,
            next_attempt: None,
            report: true,
        }),
        !after_outcomes(s, outcomes.take(k)).poll_open(),
        forall|o: HealthOutcome|
            #![trigger after_outcomes(s, outcomes.take(k)).health_step(o)]
            #![trigger after_outcomes(s, outcomes.take(k)).after_health(o)]
            after_outcomes(s, outcomes.take(k)).health_step(o) == PollStep::idle()
                && after_outcomes(s, outcomes.take(k)).after_health(o) == after_outcomes(
                s,
                outcomes.take(k),
            ),
{
    let upto = outcomes.take(k);
    let front = outcomes.take(k - 1);
    assert(upto.drop_last() =~= front);
    assert(upto.last() == outcomes[k - 1]);
    lemma_failures_only_count(s, front);
}

/// When no attempt succeeds, the budget is used up to the last attempt: each
/// of the first twenty-nine answers is followed by the pause and the next
/// attempt, with nothing published; the thirtieth is followed by the pause
/// and the `Failed` notice, and ends the polling. The status is never touched.
pub proof fn lemma_failures_exhaust_budget(s: Supervisor, outcomes: Seq<HealthOutcome>)
    requires
        s.polling,
        s.attempts == 0,
        outcomes.len() == MAX_ATTEMPTS,
        forall|i: int| 0 <= i < outcomes.len() ==> !outcomes[i].healthy(),
    ensures
        forall|i: int|
            #![trigger outcomes[i]]
            0 <= i < MAX_ATTEMPTS - 1 ==> {
                let step = after_outcomes(s, outcomes.take(i)).health_step(outcomes[i]);
                &&& step.notice is None
                &&& step.delay_ms == RETRY_DELAY_MS
                &&& step.next_attempt == Some((i + 2) as u32)
            },
        after_outcomes(s, outcomes.take(MAX_ATTEMPTS - 1)).health_step(
            outcomes[MAX_ATTEMPTS - 1],
        ).notice == Some(Notice::Failed),
        after_outcomes(s, outcomes.take(MAX_ATTEMPTS - 1)).health_step(
            outcomes[MAX_ATTEMPTS - 1],
        ).delay_ms == RETRY_DELAY_MS,
        after_outcomes(s, outcomes.take(MAX_ATTEMPTS - 1)).health_step(
            outcomes[MAX_ATTEMPTS - 1],
        ).next_attempt is None,
        after_outcomes(s, outcomes) == (Supervisor { attempts: MAX_ATTEMPTS, polling: false, ..s }),
        after_outcomes(s, outcomes).status == s.status,
        forall|o: HealthOutcome|
            #![trigger after_outcomes(s, outcomes).health_step(o)]
            #![trigger after_outcomes(s, outcomes).after_health(o)]
            after_outcomes(s, outcomes).health_step(o) == PollStep::idle() && after_outcomes(
                s,
                outcomes,
            ).after_health(o) == after_outcomes(s, outcomes),
{
    lemma_failures_only_count(s, outcomes);
    assert forall|i: int| #![trigger outcomes[i]] 0 <= i < MAX_ATTEMPTS implies after_outcomes(
        s,
        outcomes.take(i),
    ) == (Supervisor { attempts: i as u32, ..s }) by {
        let front = outcomes.take(i);
        assert forall|j: int| 0 <= j < front.len() implies !front[j].healthy() by {
            assert(front[j] == outcomes[j]);
        }
        lemma_failures_only_count(s, front);
    }
    assert(!outcomes[MAX_ATTEMPTS - 1].healthy());
}

/// A second readiness signal is silent, whichever of the two paths each
/// signal takes: it publishes nothing, and the backend stays ready.
pub proof fn lemma_second_ready_signal_is_silent(
    s: Supervisor,
    line1: OutputEvent,
    line2: OutputEvent,
    ok1: HealthOutcome,
    ok2: HealthOutcome,
)
    requires
        !s.child_exited,
        s.poll_open(),
        line1.announces_ready(),
        line2.announces_ready(),
        ok1.healthy(),
        ok2.healthy(),
    ensures
        s.after_output(line1).status == BackendStatus::Ready,
        s.after_health(ok1).status == BackendStatus::Ready,
        s.after_output(line1).output_step(line2).notice is None,
        s.after_output(line1).after_output(line2) == s.after_output(line1),
        s.after_output(line1).health_step(ok2).notice is None,
        s.after_output(line1).after_health(ok2).status == BackendStatus::Ready,
        s.after_health(ok1).output_step(line2).notice is None,
        s.after_health(ok1).after_output(line2) == s.after_health(ok1),
        s.after_health(ok1).health_step(ok2).notice is None,
        s.after_health(ok1).after_health(ok2) == s.after_health(ok1),
{
}

} // verus!
