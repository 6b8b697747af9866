use ticket_grab::classify::FatalKind;
use ticket_grab::pipeline::{
    Action, ChallengeOutcome, Event, FailReason, GrabParams, GrabState, Outcome, Phase, Step,
};

const CONFIRM: &str = "{\"pay_money\":100}";
const PAY: &str = "{\"code_url\":\"weixin://pay\"}";

fn finish_reason(step: &Step) -> Option<FailReason> {
    match &step.action {
        Action::Finish(Outcome::Failure(f)) => Some(*f),
        _ => None,
    }
}

#[test]
fn token_expired_returns_to_token_once() {
    let mut s = GrabState::new(GrabParams::immediate());
    let mut token_requests = 0;
    let first = s.start();
    assert!(matches!(first.action, Action::RequestToken));
    let st = s.step(Event::TokenGranted("abc".to_string()));
    assert!(matches!(st.action, Action::ConfirmOrder));
    assert_eq!(s.token, "abc");
    let st = s.step(Event::ConfirmSucceeded(CONFIRM.to_string()));
    assert!(matches!(st.action, Action::SubmitOrder { need_retry: false }));
    let st = s.step(Event::OrderRejected(100041));
    if matches!(st.action, Action::RequestToken) {
        token_requests += 1;
    }
    assert_eq!(s.phase, Phase::AcquireToken);
    let st = s.step(Event::TokenGranted("def".to_string()));
    assert!(matches!(st.action, Action::ConfirmOrder));
    assert_eq!(s.token, "def");
    let st = s.step(Event::ConfirmSucceeded(CONFIRM.to_string()));
    assert!(matches!(st.action, Action::SubmitOrder { .. }));
    let st = s.step(Event::OrderCreated { order_id: 42, pay_token: "pay".to_string() });
    assert!(matches!(st.action, Action::VerifyOrder));
    let st = s.step(Event::VerifyPassed(PAY.to_string()));
    match st.action {
        Action::Finish(Outcome::Success { order_id, pay_token, pay_param, confirm_details }) => {
            assert_eq!(order_id, 42);
            assert_eq!(pay_token, "pay");
            assert_eq!(pay_param, PAY);
            assert_eq!(confirm_details, CONFIRM);
        }
        _ => panic!("expected success"),
    }
    assert_eq!(token_requests, 1);
    assert_eq!(s.token_retries, 0);
    assert!(s.is_done());
}

#[test]
fn solved_challenge_keeps_counter_at_zero() {
    let mut s = GrabState::new(GrabParams::immediate());
    let st = s.step(Event::TokenRejected(-401));
    assert!(matches!(st.action, Action::SolveChallenge));
    let st = s.step(Event::Challenge(ChallengeOutcome::Accepted));
    assert!(matches!(st.action, Action::RequestToken));
    assert_eq!(st.delay_ms, 1000);
    assert_eq!(s.token_retries, 0);
    let st = s.step(Event::TokenGranted("t".to_string()));
    assert!(matches!(st.action, Action::ConfirmOrder));
    assert_eq!(s.token_retries, 0);
}

#[test]
fn challenge_code_401_also_solves() {
    let mut s = GrabState::new(GrabParams::immediate());
    let st = s.step(Event::TokenRejected(401));
    assert!(matches!(st.action, Action::SolveChallenge));
}

#[test]
fn rejected_challenge_counts_a_token_failure() {
    let mut s = GrabState::new(GrabParams::immediate());
    s.step(Event::TokenRejected(-401));
    let st = s.step(Event::Challenge(ChallengeOutcome::Rejected));
    assert!(matches!(st.action, Action::RequestToken));
    assert_eq!(s.token_retries, 1);
}

#[test]
fn unsupported_challenge_is_terminal() {
    let mut s = GrabState::new(GrabParams::immediate());
    s.step(Event::TokenRejected(-401));
    let st = s.step(Event::Challenge(ChallengeOutcome::Unsupported));
    assert_eq!(finish_reason(&st), Some(FailReason::UnsupportedChallenge));
    assert!(s.is_done());
}

#[test]
fn token_ceiling_is_five() {
    let mut s = GrabState::new(GrabParams::immediate());
    for i in 1..5u32 {
        let st = s.step(Event::TokenRejected(999));
        assert!(matches!(st.action, Action::RequestToken));
        assert_eq!(s.token_retries, i);
    }
    let st = s.step(Event::TokenRejected(999));
    assert_eq!(finish_reason(&st), Some(FailReason::TokenRetriesExhausted));
    assert_eq!(s.token_retries, 5);
}

#[test]
fn fatal_token_code_ends_grab() {
    let mut s = GrabState::new(GrabParams::immediate());
    let st = s.step(Event::TokenRejected(100039));
    assert_eq!(finish_reason(&st), Some(FailReason::Fatal(FatalKind::SaleClosed)));
    assert_eq!(s.token_retries, 0);
}

#[test]
fn confirm_failures_abandon_token_without_counting() {
    let mut s = GrabState::new(GrabParams::immediate());
    s.step(Event::TokenGranted("abc".to_string()));
    for _ in 0..3 {
        let st = s.step(Event::ConfirmFailed);
        assert!(matches!(st.action, Action::ConfirmOrder));
        assert_eq!(st.delay_ms, 300);
    }
    let st = s.step(Event::ConfirmFailed);
    assert!(matches!(st.action, Action::RequestToken));
    assert_eq!(s.phase, Phase::AcquireToken);
    assert_eq!(s.token_retries, 0);
}

#[test]
fn order_delays_follow_classification() {
    let mut s = GrabState::new(GrabParams::immediate());
    s.step(Event::TokenGranted("abc".to_string()));
    s.step(Event::ConfirmSucceeded(CONFIRM.to_string()));
    let st = s.step(Event::OrderRejected(429));
    assert_eq!(st.delay_ms, 400);
    let st = s.step(Event::OrderRejected(100009));
    assert_eq!(st.delay_ms, 1000);
    let st = s.step(Event::OrderRejected(3));
    assert_eq!(st.delay_ms, 5200);
    assert!(matches!(st.action, Action::SubmitOrder { need_retry: true }));
    let st = s.step(Event::OrderRejected(737));
    assert_eq!(st.delay_ms, 400);
    assert_eq!(s.order_retries, 4);
}

#[test]
fn fatal_order_code_ends_grab() {
    let mut s = GrabState::new(GrabParams::immediate());
    s.step(Event::TokenGranted("abc".to_string()));
    s.step(Event::ConfirmSucceeded(CONFIRM.to_string()));
    let st = s.step(Event::OrderRejected(83000004));
    assert_eq!(finish_reason(&st), Some(FailReason::Fatal(FatalKind::NoBuyerConfigured)));
}

#[test]
fn failed_verification_resubmits() {
    let mut s = GrabState::new(GrabParams::immediate());
    s.step(Event::TokenGranted("abc".to_string()));
    s.step(Event::ConfirmSucceeded(CONFIRM.to_string()));
    s.step(Event::OrderCreated { order_id: 7, pay_token: "p".to_string() });
    let st = s.step(Event::VerifyFailed);
    assert!(matches!(st.action, Action::SubmitOrder { .. }));
    assert_eq!(s.phase, Phase::SubmitOrder);
    assert_eq!(s.token, "abc");
}

#[test]
fn salvage_caps_order_attempts_at_thirty() {
    let mut s = GrabState::new(GrabParams::salvage());
    s.step(Event::TokenGranted("abc".to_string()));
    s.step(Event::ConfirmSucceeded(CONFIRM.to_string()));
    for _ in 0..29 {
        let st = s.step(Event::OrderRejected(100001));
        assert!(matches!(st.action, Action::SubmitOrder { .. }));
    }
    let st = s.step(Event::OrderRejected(100001));
    assert_eq!(finish_reason(&st), Some(FailReason::OrderRetriesExhausted));
}

#[test]
fn cancel_mid_order_loop_ends_at_next_event() {
    let mut s = GrabState::new(GrabParams::immediate());
    s.step(Event::TokenGranted("abc".to_string()));
    s.step(Event::ConfirmSucceeded(CONFIRM.to_string()));
    let st = s.step(Event::OrderRejected(429));
    assert_eq!(st.delay_ms, 400);
    s.cancel();
    assert!(!s.is_done());
    let st = s.step(Event::OrderRejected(429));
    assert_eq!(finish_reason(&st), Some(FailReason::Cancelled));
    assert_eq!(st.delay_ms, 0);
    assert!(s.is_done());
}

#[test]
fn exactly_one_result_per_unit() {
    let mut s = GrabState::new(GrabParams::immediate());
    let events = vec![
        Event::TokenRejected(999),
        Event::TokenGranted("abc".to_string()),
        Event::ConfirmSucceeded(CONFIRM.to_string()),
        Event::OrderRejected(100017),
        Event::OrderRejected(429),
        Event::VerifyPassed(PAY.to_string()),
        Event::TokenGranted("x".to_string()),
    ];
    let mut finishes = 0;
    for e in events {
        if matches!(s.step(e).action, Action::Finish(_)) {
            finishes += 1;
        }
    }
    assert_eq!(finishes, 1);
}

#[test]
fn mismatched_event_is_ignored() {
    let mut s = GrabState::new(GrabParams::immediate());
    let st = s.step(Event::ConfirmSucceeded(CONFIRM.to_string()));
    assert!(matches!(st.action, Action::Idle));
    assert_eq!(s.phase, Phase::AcquireToken);
}

#[test]
fn codes_outside_the_table_are_retried() {
    let mut s = GrabState::new(GrabParams::immediate());
    s.step(Event::TokenGranted("abc".to_string()));
    s.step(Event::ConfirmSucceeded(CONFIRM.to_string()));
    for code in [100080i64, 100082, 12345] {
        let st = s.step(Event::OrderRejected(code));
        assert!(matches!(st.action, Action::SubmitOrder { .. }));
        assert_eq!(st.delay_ms, 400);
    }
    assert_eq!(s.token, "abc");
    let mut t = GrabState::new(GrabParams::immediate());
    let st = t.step(Event::TokenRejected(100080));
    assert!(matches!(st.action, Action::RequestToken));
    assert_eq!(t.token_retries, 1);
}

#[test]
fn many_accepted_challenges_never_exhaust_tokens() {
    let mut s = GrabState::new(GrabParams::immediate());
    for _ in 0..12 {
        let st = s.step(Event::TokenRejected(-401));
        assert!(matches!(st.action, Action::SolveChallenge));
        let st = s.step(Event::Challenge(ChallengeOutcome::Accepted));
        assert!(matches!(st.action, Action::RequestToken));
        assert_eq!(s.token_retries, 0);
    }
    assert!(!s.is_done());
}

#[test]
fn cancelled_unit_stops_before_its_next_call() {
    let mut s = GrabState::new(GrabParams::immediate());
    s.step(Event::TokenGranted("abc".to_string()));
    assert!(s.stop_if_cancelled().is_none());
    s.cancel();
    let st = s.stop_if_cancelled().unwrap();
    assert_eq!(finish_reason(&st), Some(FailReason::Cancelled));
    assert!(s.is_done());
    assert!(s.stop_if_cancelled().is_none());
}
