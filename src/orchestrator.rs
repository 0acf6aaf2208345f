//! The polling state machine that waits for a started transaction to reach
//! a terminal status. It makes no calls itself: the caller performs each
//! action it asks for and hands back what came of it.

use vstd::prelude::*;
use crate::domain::{AuthSignResponse, CollectResponse, HintCode, Status};

verus! {

/// Default delay between the starts of two collect calls.
pub const POLL_DELAY_MS: u64 = 2000;

/// Default number of collect calls after which polling gives up (about ten
/// minutes at the default delay).
pub const MAX_TICKS: u64 = 300;

/// A failed call to the provider.
#[derive(Clone, Copy, Debug, PartialEq, Eq, Structural)]
pub enum GatewayError {
    /// The request did not reach the provider or no answer came back.
    Network,
    /// The provider answered with a status code other than success.
    Protocol(u16),
    /// The answer's body did not have the expected shape.
    Decode,
    /// The answer's status was terminal, but the rest of its body did not
    /// have the expected shape. Asking again cannot mend it.
    MalformedTerminal,
}

impl GatewayError {
    /// Whether polling may go on after this failure.
    pub open spec fn is_transient(self) -> bool {
        !(self is MalformedTerminal)
    }
}

/// Why a transaction attempt ended without a terminal collect response.
#[derive(Clone, Copy, Debug, PartialEq, Eq, Structural)]
pub enum OrchestrationError {
    /// The start call failed; it is never retried.
    Start(GatewayError),
    /// The tick budget ran out before a terminal status was seen.
    GiveUp,
    /// A collect call failed in a way that polling cannot recover from.
    Gateway(GatewayError),
}

#[derive(Clone, Copy, Debug, PartialEq, Eq, Structural)]
pub enum PollPhase {
    Started,
    Polling,
    Completed,
    Failed,
    GaveUp,
    Aborted,
    Cancelled,
}

/// What the caller is to do next.
#[derive(Debug)]
pub enum PollAction {
    /// Call collect-status for the order reference, and start the next tick
    /// no sooner than `wait_ms` after this one began.
    Collect { wait_ms: u64 },
    /// A terminal status was seen (Complete or Failed): this is the result.
    Finish(CollectResponse),
    /// The tick budget is spent.
    GiveUp,
    /// A collect call failed for good: the error is escalated.
    Abort(GatewayError),
}

/// The state of one transaction's wait for completion.
pub struct Poller {
    pub order_ref: String,
    pub ticks: u64,
    pub max_ticks: u64,
    pub delay_ms: u64,
    pub phase: PollPhase,
}

impl Poller {
    /// The tick counter never passes the budget.
    pub open spec fn wf(self) -> bool {
        self.ticks <= self.max_ticks
    }

    /// Least time spent waiting, in milliseconds, by the ticks so far.
    pub open spec fn min_elapsed_ms(self) -> int {
        self.ticks * self.delay_ms
    }

    /// The poller and action that follow one collect outcome.
    pub open spec fn spec_step(self, outcome: Result<CollectResponse, GatewayError>) -> (
        Poller,
        PollAction,
    ) {
        let t = (self.ticks + 1) as u64;
        let again = if t >= self.max_ticks {
            (Poller { ticks: t, phase: PollPhase::GaveUp, ..self }, PollAction::GiveUp)
        } else {
            (
                Poller { ticks: t, phase: PollPhase::Polling, ..self },
                PollAction::Collect { wait_ms: self.delay_ms },
            )
        };
        let abort = (
            Poller { ticks: t, phase: PollPhase::Aborted, ..self },
            PollAction::Abort(GatewayError::MalformedTerminal),
        );
        match outcome {
            Ok(resp) => if resp.status is Pending {
                again
            } else if !resp.consistent() {
                abort
            } else if resp.status is Complete {
                (Poller { ticks: t, phase: PollPhase::Completed, ..self }, PollAction::Finish(resp))
            } else {
                (Poller { ticks: t, phase: PollPhase::Failed, ..self }, PollAction::Finish(resp))
            },
            Err(e) => if e.is_transient() {
                again
            } else {
                abort
            },
        }
    }

    /// A poller for a transaction whose start call came back with `start`.
    /// A failed start ends the attempt at once.
    pub fn after_start(
        start: Result<AuthSignResponse, GatewayError>,
        max_ticks: u64,
        delay_ms: u64,
    ) -> (r: Result<Poller, OrchestrationError>)
        ensures
            start matches Err(e) ==> r == Err::<Poller, OrchestrationError>(
                OrchestrationError::Start(e),
            ),
            start matches Ok(h) ==> r matches Ok(p) && p.order_ref == h.order_ref && p.ticks == 0
                && p.max_ticks == max_ticks && p.delay_ms == delay_ms && p.phase
                == PollPhase::Started,
    {
        match start {
            Err(e) => Err(OrchestrationError::Start(e)),
            Ok(h) => Ok(Poller::new(h.order_ref, max_ticks, delay_ms)),
        }
    }

    pub fn new(order_ref: String, max_ticks: u64, delay_ms: u64) -> (r: Poller)
        ensures
            r.order_ref == order_ref,
            r.ticks == 0,
            r.max_ticks == max_ticks,
            r.delay_ms == delay_ms,
            r.phase == PollPhase::Started,
            r.wf(),
    {
        Poller { order_ref, ticks: 0, max_ticks, delay_ms, phase: PollPhase::Started }
    }

    /// The first action: a collect call, or giving up at once when the
    /// budget holds no tick.
    pub fn begin(&mut self) -> (r: PollAction)
        requires
            old(self).phase == PollPhase::Started,
            old(self).wf(),
        ensures
            final(self).wf(),
            final(self).ticks == old(self).ticks,
            final(self).order_ref == old(self).order_ref,
            final(self).max_ticks == old(self).max_ticks,
            final(self).delay_ms == old(self).delay_ms,
            old(self).max_ticks == 0 ==> final(self).phase == PollPhase::GaveUp
                && r is GiveUp,
            old(self).max_ticks > 0 ==> final(self).phase == PollPhase::Polling
                && r == (PollAction::Collect { wait_ms: old(self).delay_ms }),
    {
        if self.max_ticks == 0 {
            self.phase = PollPhase::GaveUp;
            PollAction::GiveUp
        } else {
            self.phase = PollPhase::Polling;
            PollAction::Collect { wait_ms: self.delay_ms }
        }
    }

    /// Takes in the outcome of one collect call. Every call counts as one
    /// tick, whether it failed or not; a transient failure never ends
    /// polling before the budget is spent, and a malformed terminal answer
    /// ends it with that error. An answer whose completion data does not
    /// match its status is malformed: a terminal one is escalated, a pending
    /// one counts as a transient failure.
    pub fn on_collect(&mut self, outcome: Result<CollectResponse, GatewayError>) -> (r:
        PollAction)
        requires
            old(self).phase == PollPhase::Polling,
            old(self).ticks < old(self).max_ticks,
        ensures
            (*final(self), r) == old(self).spec_step(outcome),
            final(self).wf(),
            final(self).ticks == old(self).ticks + 1,
    {
        let t = self.ticks + 1;
        self.ticks = t;
        match outcome {
            Ok(resp) => match resp.status {
                Status::Pending => self.next_tick(),
                _ if !resp.is_consistent() => self.abort(),
                Status::Complete => {
                    self.phase = PollPhase::Completed;
                    PollAction::Finish(resp)
                },
                Status::Failed => {
                    self.phase = PollPhase::Failed;
                    PollAction::Finish(resp)
                },
            },
            Err(GatewayError::MalformedTerminal) => self.abort(),
            Err(_) => self.next_tick(),
        }
    }

    /// Ends polling on an answer that asking again cannot mend.
    fn abort(&mut self) -> (r: PollAction)
        ensures
            *final(self) == (Poller { phase: PollPhase::Aborted, ..*old(self) }),
            r == PollAction::Abort(GatewayError::MalformedTerminal),
    {
        self.phase = PollPhase::Aborted;
        PollAction::Abort(GatewayError::MalformedTerminal)
    }

    /// After a tick that saw no terminal status: poll again, or give up
    /// when the budget is spent.
    fn next_tick(&mut self) -> (r: PollAction)
        requires
            old(self).ticks <= old(self).max_ticks,
        ensures
            old(self).ticks >= old(self).max_ticks ==> *final(self) == (Poller {
                phase: PollPhase::GaveUp,
                ..*old(self)
            }) && r is GiveUp,
            old(self).ticks < old(self).max_ticks ==> *final(self) == (Poller {
                phase: PollPhase::Polling,
                ..*old(self)
            }) && r == (PollAction::Collect { wait_ms: old(self).delay_ms }),
    {
        if self.ticks >= self.max_ticks {
            self.phase = PollPhase::GaveUp;
            PollAction::GiveUp
        } else {
            self.phase = PollPhase::Polling;
            PollAction::Collect { wait_ms: self.delay_ms }
        }
    }

    /// Stops polling at the caller's request; whatever a call in flight
    /// returns afterwards is to be discarded.
    pub fn cancel(&mut self)
        ensures
            final(self).phase == PollPhase::Cancelled,
            final(self).ticks == old(self).ticks,
            final(self).order_ref == old(self).order_ref,
            final(self).max_ticks == old(self).max_ticks,
            final(self).delay_ms == old(self).delay_ms,
    {
        self.phase = PollPhase::Cancelled;
    }

    /// Whether polling has ended.
    pub fn is_done(&self) -> (r: bool)
        ensures
            r == !(self.phase is Started || self.phase is Polling),
    {
        match self.phase {
            PollPhase::Started | PollPhase::Polling => false,
            _ => true,
        }
    }
}

/// Whether a collect outcome leaves the transaction unresolved: a
/// transient failure, or an answer with status Pending.
pub open spec fn is_unresolved(o: Result<CollectResponse, GatewayError>) -> bool {
    match o {
        Ok(resp) => resp.status is Pending,
        Err(e) => e.is_transient(),
    }
}

/// Whether a collect outcome is an answer with status Pending.
pub open spec fn is_pending_answer(o: Result<CollectResponse, GatewayError>) -> bool {
    o matches Ok(resp) && resp.status is Pending
}

/// Feeds a poller the outcomes of successive collect calls, one per tick,
/// until an action other than another collect call comes out or the
/// outcomes run out.
pub open spec fn drive(p: Poller, script: Seq<Result<CollectResponse, GatewayError>>) -> (
    Poller,
    PollAction,
)
    decreases script.len(),
{
    if script.len() == 0 {
        (p, PollAction::Collect { wait_ms: p.delay_ms })
    } else {
        let (q, a) = p.spec_step(script[0]);
        if a is Collect {
            drive(q, script.drop_first())
        } else {
            (q, a)
        }
    }
}

/// A gateway that answers Pending `k` times and then Complete gets exactly
/// `k + 1` collect calls, the complete answer is the result, and the ticks
/// before it waited at least `k` delays.
pub proof fn lemma_pending_then_complete(
    p: Poller,
    script: Seq<Result<CollectResponse, GatewayError>>,
    k: nat,
)
    requires
        p.phase == PollPhase::Polling,
        p.ticks + k < p.max_ticks,
        script.len() == k + 1,
        forall|i: int| 0 <= i < k ==> is_pending_answer(#[trigger] script[i]),
        script[k as int] matches Ok(r) && r.status is Complete && r.consistent(),
    ensures
        drive(p, script).0.ticks == p.ticks + k + 1,
        drive(p, script).0.phase == PollPhase::Completed,
        drive(p, script).1 == PollAction::Finish(script[k as int]->Ok_0),
        drive(p, script).0.min_elapsed_ms() - p.min_elapsed_ms() >= k * p.delay_ms,
    decreases k,
{
    let (q, a) = p.spec_step(script[0]);
    if k > 0 {
        let rest = script.drop_first();
        assert forall|i: int| 0 <= i < k - 1 implies is_pending_answer(#[trigger] rest[i]) by {
            assert(rest[i] == script[i + 1]);
        }
        assert(rest[k - 1] == script[k as int]);
        lemma_pending_then_complete(q, rest, (k - 1) as nat);
        assert(drive(p, script) == drive(q, rest));
    }
    let f = drive(p, script).0;
    assert(f.delay_ms == p.delay_ms) by {
        lemma_drive_keeps_settings(p, script);
    }
    assert((p.ticks + k + 1) * p.delay_ms - p.ticks * p.delay_ms >= k * p.delay_ms)
        by (nonlinear_arith);
}

/// Driving a poller changes only its tick counter and phase.
pub proof fn lemma_drive_keeps_settings(
    p: Poller,
    script: Seq<Result<CollectResponse, GatewayError>>,
)
    ensures
        drive(p, script).0.delay_ms == p.delay_ms,
        drive(p, script).0.max_ticks == p.max_ticks,
        drive(p, script).0.order_ref == p.order_ref,
    decreases script.len(),
{
    if script.len() > 0 {
        let (q, a) = p.spec_step(script[0]);
        if a is Collect {
            lemma_drive_keeps_settings(q, script.drop_first());
        }
    }
}

/// Outcomes that never resolve the transaction, transient failures and
/// Pending answers alike, each use one tick: polling goes on until exactly the
/// budget of collect calls is spent, and then gives up.
pub proof fn lemma_unresolved_gives_up(
    p: Poller,
    script: Seq<Result<CollectResponse, GatewayError>>,
)
    requires
        p.phase == PollPhase::Polling,
        p.ticks < p.max_ticks,
        script.len() >= p.max_ticks - p.ticks,
        forall|i: int| 0 <= i < script.len() ==> is_unresolved(#[trigger] script[i]),
    ensures
        drive(p, script).0 == (Poller { ticks: p.max_ticks, phase: PollPhase::GaveUp, ..p }),
        drive(p, script).1 is GiveUp,
    decreases p.max_ticks - p.ticks,
{
    assert(is_unresolved(script[0]));
    let (q, a) = p.spec_step(script[0]);
    if p.ticks + 1 < p.max_ticks {
        let rest = script.drop_first();
        assert forall|i: int| 0 <= i < rest.len() implies is_unresolved(#[trigger] rest[i]) by {
            assert(rest[i] == script[i + 1]);
        }
        lemma_unresolved_gives_up(q, rest);
    }
}

/// A gateway that always answers Pending gets exactly the budget of collect
/// calls, never more, and polling ends by giving up.
pub proof fn lemma_always_pending_gives_up(
    p: Poller,
    script: Seq<Result<CollectResponse, GatewayError>>,
)
    requires
        p.phase == PollPhase::Polling,
        p.ticks == 0,
        0 < p.max_ticks,
        script.len() >= p.max_ticks,
        forall|i: int| 0 <= i < script.len() ==> is_pending_answer(#[trigger] script[i]),
    ensures
        drive(p, script).0.ticks == p.max_ticks,
        drive(p, script).0.phase == PollPhase::GaveUp,
        drive(p, script).1 is GiveUp,
{
    assert forall|i: int| 0 <= i < script.len() implies is_unresolved(#[trigger] script[i]) by {
        assert(is_pending_answer(script[i]));
    }
    lemma_unresolved_gives_up(p, script);
}

/// A gateway that alternates between a network failure and a Pending
/// answer does not stop polling early: both kinds of tick are counted, and
/// polling gives up after exactly the budget of collect calls.
pub proof fn lemma_alternating_failures_keep_polling(
    p: Poller,
    script: Seq<Result<CollectResponse, GatewayError>>,
)
    requires
        p.phase == PollPhase::Polling,
        p.ticks == 0,
        0 < p.max_ticks,
        script.len() >= p.max_ticks,
        forall|i: int|
            0 <= i < script.len() && i % 2 == 0 ==> (#[trigger] script[i]) == Err::<
                CollectResponse,
                GatewayError,
            >(GatewayError::Network),
        forall|i: int|
            0 <= i < script.len() && i % 2 == 1 ==> is_pending_answer(#[trigger] script[i]),
    ensures
        drive(p, script).0.ticks == p.max_ticks,
        drive(p, script).0.phase == PollPhase::GaveUp,
        drive(p, script).1 is GiveUp,
{
    assert forall|i: int| 0 <= i < script.len() implies is_unresolved(#[trigger] script[i]) by {
        if i % 2 == 1 {
            assert(is_pending_answer(script[i]));
        }
    }
    lemma_unresolved_gives_up(p, script);
}

/// A Failed answer with the user-cancel hint ends polling with that answer
/// as the result, not with an error, and the hint is kept.
pub proof fn lemma_user_cancel_is_terminal(p: Poller, resp: CollectResponse)
    requires
        p.phase == PollPhase::Polling,
        p.ticks < p.max_ticks,
        resp.status is Failed,
        resp.hint_code == Some(HintCode::FailedUserCancel),
        resp.consistent(),
    ensures
        p.spec_step(Ok(resp)).0.phase == PollPhase::Failed,
        p.spec_step(Ok(resp)).1 == PollAction::Finish(resp),
        p.spec_step(Ok(resp)).1->Finish_0.hint_code == Some(HintCode::FailedUserCancel),
{
}

} // verus!
