use ticket_grab::pipeline::ChallengeOutcome;
use ticket_grab::risk::{
    after_poll, assess_register, assess_validation, solver_mode, ChallengeStart, PollMove, RegisterReply,
    RiskError, SolverError, SolverMode,
};

fn reply(code: i64, kind: &str, gt: &str) -> RegisterReply {
    RegisterReply {
        code,
        kind: kind.to_string(),
        gt: gt.to_string(),
        challenge: "ch".to_string(),
        token: "tk".to_string(),
    }
}

#[test]
fn geetest_is_solved() {
    match assess_register(&reply(0, "geetest", "g")) {
        ChallengeStart::Solve { gt, challenge, token } => {
            assert_eq!((gt.as_str(), challenge.as_str(), token.as_str()), ("g", "ch", "tk"));
        }
        _ => panic!("expected solve"),
    }
}

#[test]
fn other_kind_is_unsupported() {
    assert!(matches!(assess_register(&reply(0, "sms", "g")), ChallengeStart::Unsupported));
}

#[test]
fn register_errors() {
    assert!(matches!(
        assess_register(&reply(-352, "geetest", "g")),
        ChallengeStart::Fail(RiskError::RegisterRejected(-352))
    ));
    assert!(matches!(
        assess_register(&reply(0, "geetest", "")),
        ChallengeStart::Fail(RiskError::MissingChallengeParams)
    ));
}

#[test]
fn validation() {
    assert_eq!(assess_validation(0, true), ChallengeOutcome::Accepted);
    assert_eq!(assess_validation(0, false), ChallengeOutcome::Rejected);
    assert_eq!(assess_validation(1, true), ChallengeOutcome::Rejected);
}

#[test]
fn solver_modes() {
    assert_eq!(solver_mode(0), Err(SolverError::LocalUnsupported));
    assert_eq!(solver_mode(1), Ok(SolverMode::Remote));
    assert_eq!(solver_mode(7), Err(SolverError::InvalidMode));
}

#[test]
fn poll_gives_up_after_twenty() {
    assert_eq!(after_poll(1, true), PollMove::Solved);
    assert_eq!(after_poll(19, false), PollMove::Wait(1000));
    assert_eq!(after_poll(20, false), PollMove::TimedOut);
}
