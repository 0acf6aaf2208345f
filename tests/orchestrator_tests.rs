use bankid_rs::domain::{AuthSignResponse, CollectResponse, CompletionData, HintCode, Status, UserData};
use bankid_rs::orchestrator::{
    GatewayError, OrchestrationError, PollAction, PollPhase, Poller, MAX_TICKS, POLL_DELAY_MS,
};

fn completion() -> CompletionData {
    CompletionData {
        user: UserData {
            personal_number: "191212121212".to_string(),
            name: "Tolvan Tolvansson".to_string(),
            given_name: "Tolvan".to_string(),
            surname: "Tolvansson".to_string(),
        },
        device: None,
        cert: None,
        signature: None,
        ocsp_response: None,
    }
}

fn answer(status: Status, hint: Option<HintCode>) -> CollectResponse {
    let completion_data = if status == Status::Complete { Some(completion()) } else { None };
    CollectResponse { order_ref: "ref-1".to_string(), status, hint_code: hint, completion_data }
}

/// Runs a poller against a scripted gateway; returns the final action, the
/// number of collect calls and the total of the waits asked for.
fn run(max_ticks: u64, script: &mut dyn FnMut(u64) -> Result<CollectResponse, GatewayError>) -> (PollAction, u64, u64, Poller) {
    let mut p = Poller::new("ref-1".to_string(), max_ticks, POLL_DELAY_MS);
    let mut action = p.begin();
    let mut calls = 0u64;
    let mut waited = 0u64;
    loop {
        match action {
            PollAction::Collect { wait_ms } => {
                let outcome = script(calls);
                calls += 1;
                waited += wait_ms;
                action = p.on_collect(outcome);
            }
            other => return (other, calls, waited, p),
        }
    }
}

#[test]
fn pending_then_complete_takes_k_plus_one_calls() {
    let k = 4u64;
    let (action, calls, waited, p) = run(MAX_TICKS, &mut |i| {
        if i < k { Ok(answer(Status::Pending, Some(HintCode::PendingOutstandingTransaction))) } else { Ok(answer(Status::Complete, None)) }
    });
    assert_eq!(calls, k + 1);
    assert!(waited >= k * POLL_DELAY_MS);
    assert_eq!(p.phase, PollPhase::Completed);
    match action {
        PollAction::Finish(r) => assert_eq!(r.status, Status::Complete),
        _ => panic!("expected a finished transaction"),
    }
}

#[test]
fn always_pending_gives_up_at_the_budget() {
    let (action, calls, _, p) = run(7, &mut |_| Ok(answer(Status::Pending, None)));
    assert!(matches!(action, PollAction::GiveUp));
    assert_eq!(calls, 7);
    assert_eq!(p.ticks, 7);
    assert_eq!(p.phase, PollPhase::GaveUp);
}

#[test]
fn reference_budget_is_three_hundred_ticks() {
    let (action, calls, _, _) = run(MAX_TICKS, &mut |_| Ok(answer(Status::Pending, None)));
    assert!(matches!(action, PollAction::GiveUp));
    assert_eq!(calls, 300);
}

#[test]
fn transient_errors_do_not_stop_polling() {
    let (action, calls, _, p) = run(6, &mut |i| {
        if i % 2 == 0 { Err(GatewayError::Network) } else { Ok(answer(Status::Pending, None)) }
    });
    assert!(matches!(action, PollAction::GiveUp));
    assert_eq!(calls, 6);
    assert_eq!(p.ticks, 6);
}

#[test]
fn errors_count_as_ticks() {
    let mut p = Poller::new("r".to_string(), 10, 5);
    assert!(matches!(p.begin(), PollAction::Collect { wait_ms: 5 }));
    let a = p.on_collect(Err(GatewayError::Network));
    assert!(matches!(a, PollAction::Collect { wait_ms: 5 }));
    assert_eq!(p.ticks, 1);
    let a = p.on_collect(Ok(answer(Status::Pending, None)));
    assert!(matches!(a, PollAction::Collect { wait_ms: 5 }));
    assert_eq!(p.ticks, 2);
    let a = p.on_collect(Err(GatewayError::Decode));
    assert!(matches!(a, PollAction::Collect { .. }));
    assert_eq!(p.ticks, 3);
}

#[test]
fn user_cancel_is_a_terminal_answer() {
    let (action, calls, _, p) = run(MAX_TICKS, &mut |i| {
        if i < 2 { Ok(answer(Status::Pending, None)) } else { Ok(answer(Status::Failed, Some(HintCode::FailedUserCancel))) }
    });
    assert_eq!(calls, 3);
    assert_eq!(p.phase, PollPhase::Failed);
    match action {
        PollAction::Finish(r) => {
            assert_eq!(r.status, Status::Failed);
            assert_eq!(r.hint_code, Some(HintCode::FailedUserCancel));
        }
        _ => panic!("expected a finished transaction"),
    }
}

#[test]
fn unknown_hint_does_not_stop_polling() {
    let (action, calls, _, _) = run(MAX_TICKS, &mut |i| {
        if i < 3 { Ok(answer(Status::Pending, Some(HintCode::from_wire("somethingNew")))) } else { Ok(answer(Status::Complete, None)) }
    });
    assert_eq!(calls, 4);
    assert!(matches!(action, PollAction::Finish(_)));
}

#[test]
fn zero_budget_gives_up_without_calls() {
    let (action, calls, _, p) = run(0, &mut |_| Ok(answer(Status::Complete, None)));
    assert!(matches!(action, PollAction::GiveUp));
    assert_eq!(calls, 0);
    assert_eq!(p.phase, PollPhase::GaveUp);
}

#[test]
fn failed_start_is_not_retried() {
    let r = Poller::after_start(Err(GatewayError::Protocol(400)), MAX_TICKS, POLL_DELAY_MS);
    assert!(matches!(r, Err(OrchestrationError::Start(GatewayError::Protocol(400)))));
    let h = AuthSignResponse { auto_start_token: Some("tok".to_string()), order_ref: "o-9".to_string() };
    let p = Poller::after_start(Ok(h), 3, 100).ok().unwrap();
    assert_eq!(p.order_ref, "o-9");
    assert_eq!(p.ticks, 0);
    assert_eq!(p.phase, PollPhase::Started);
}

#[test]
fn cancel_ends_polling() {
    let mut p = Poller::new("r".to_string(), 10, 5);
    let _ = p.begin();
    assert!(!p.is_done());
    p.cancel();
    assert!(p.is_done());
    assert_eq!(p.phase, PollPhase::Cancelled);
}

#[test]
fn malformed_terminal_answer_is_escalated() {
    let mut p = Poller::new("r".to_string(), 10, 5);
    let _ = p.begin();
    let _ = p.on_collect(Err(GatewayError::Decode));
    assert_eq!(p.phase, PollPhase::Polling);
    let a = p.on_collect(Err(GatewayError::MalformedTerminal));
    assert!(matches!(a, PollAction::Abort(GatewayError::MalformedTerminal)));
    assert_eq!(p.phase, PollPhase::Aborted);
    assert_eq!(p.ticks, 2);
    assert!(p.is_done());
}

#[test]
fn complete_without_completion_data_is_escalated() {
    let mut p = Poller::new("r".to_string(), 10, 5);
    let _ = p.begin();
    let mut bad = answer(Status::Complete, None);
    bad.completion_data = None;
    assert!(!bad.is_consistent());
    let a = p.on_collect(Ok(bad));
    assert!(matches!(a, PollAction::Abort(GatewayError::MalformedTerminal)));
    assert_eq!(p.phase, PollPhase::Aborted);
}

#[test]
fn failed_with_completion_data_is_escalated() {
    let mut p = Poller::new("r".to_string(), 10, 5);
    let _ = p.begin();
    let mut bad = answer(Status::Failed, Some(HintCode::FailedUserCancel));
    bad.completion_data = Some(completion());
    let a = p.on_collect(Ok(bad));
    assert!(matches!(a, PollAction::Abort(GatewayError::MalformedTerminal)));
}

#[test]
fn pending_with_completion_data_keeps_polling() {
    let mut p = Poller::new("r".to_string(), 10, 5);
    let _ = p.begin();
    let mut odd = answer(Status::Pending, None);
    odd.completion_data = Some(completion());
    let a = p.on_collect(Ok(odd));
    assert!(matches!(a, PollAction::Collect { wait_ms: 5 }));
    assert_eq!(p.ticks, 1);
}

#[test]
fn consistency_of_answers() {
    assert!(answer(Status::Complete, None).is_consistent());
    assert!(answer(Status::Pending, None).is_consistent());
    assert!(answer(Status::Failed, Some(HintCode::FailedExpiredTransaction)).is_consistent());
}
