use vstd::prelude::*;
use vstd::string::StringExecFns;
use crate::pipeline::ChallengeOutcome;

verus! {

/// Polls of the captcha backend before the solve times out.
pub const SOLVE_POLL_ATTEMPTS: u32 = 20;

/// Delay between two polls of the captcha backend, in milliseconds.
pub const SOLVE_POLL_DELAY_MS: u64 = 1000;

/// The captcha item kind asked of the backend for a click challenge.
pub const CLICK_CAPTCHA_KIND: usize = 33;

/// What the challenge registration answered.
#[derive(Clone, Debug)]
pub struct RegisterReply {
    pub code: i64,
    /// The challenge kind, such as `geetest`.
    pub kind: String,
    pub gt: String,
    pub challenge: String,
    pub token: String,
}

/// Why a challenge could not be resolved.
#[derive(Clone, Copy, Debug, PartialEq, Eq, Structural)]
pub enum RiskError {
    /// The registration answered with a non-zero code.
    RegisterRejected(i64),
    /// The registration lacked one of gt, challenge or token.
    MissingChallengeParams,
}

/// What to do with a registered challenge.
#[derive(Clone, Debug)]
pub enum ChallengeStart {
    /// Hand gt and challenge to the captcha backend; submit with the token.
    Solve { gt: String, challenge: String, token: String },
    /// The kind cannot be solved.
    Unsupported,
    /// The challenge failed before solving.
    Fail(RiskError),
}

/// The one challenge kind that can be solved.
pub open spec fn solvable_kind(kind: Seq<char>) -> bool {
    kind == "geetest"@
}

/// Decides what to do with the challenge registration's reply.
pub fn assess_register(reply: &RegisterReply) -> (r: ChallengeStart)
    ensures
        reply.code != 0 ==> r == ChallengeStart::Fail(RiskError::RegisterRejected(reply.code)),
        reply.code == 0 && !solvable_kind(reply.kind@) ==> r == ChallengeStart::Unsupported,
        reply.code == 0 && solvable_kind(reply.kind@)
            && (reply.gt@.len() == 0 || reply.challenge@.len() == 0 || reply.token@.len() == 0)
            ==> r == ChallengeStart::Fail(RiskError::MissingChallengeParams),
        reply.code == 0 && solvable_kind(reply.kind@) && reply.gt@.len() > 0 && reply.challenge@.len() > 0
            && reply.token@.len() > 0 ==> r == (ChallengeStart::Solve {
            gt: reply.gt,
            challenge: reply.challenge,
            token: reply.token,
        }),
{
    if reply.code != 0 {
        return ChallengeStart::Fail(RiskError::RegisterRejected(reply.code));
    }
    let geetest = String::from_str("geetest");
    if !(reply.kind == geetest) {
        return ChallengeStart::Unsupported;
    }
    if reply.gt.unicode_len() == 0 || reply.challenge.unicode_len() == 0 || reply.token.unicode_len() == 0 {
        return ChallengeStart::Fail(RiskError::MissingChallengeParams);
    }
    ChallengeStart::Solve { gt: reply.gt.clone(), challenge: reply.challenge.clone(), token: reply.token.clone() }
}

/// Decides the challenge from the validation reply: accepted only when the
/// code is zero and the reply says the solve is valid.
pub fn assess_validation(code: i64, is_valid: bool) -> (r: ChallengeOutcome)
    ensures
        r == (if code == 0 && is_valid { ChallengeOutcome::Accepted } else { ChallengeOutcome::Rejected }),
{
    if code == 0 && is_valid {
        ChallengeOutcome::Accepted
    } else {
        ChallengeOutcome::Rejected
    }
}

/// The captcha backend to use.
#[derive(Clone, Copy, Debug, PartialEq, Eq, Structural)]
pub enum SolverMode {
    /// The remote recognition service.
    Remote,
}

/// Why no captcha backend can be used.
#[derive(Clone, Copy, Debug, PartialEq, Eq, Structural)]
pub enum SolverError {
    /// Local solving is not available.
    LocalUnsupported,
    /// The configured mode is none of the known ones.
    InvalidMode,
}

/// The backend for a configured captcha mode: 0 is local solving, which is not
/// available, 1 the remote service.
pub fn solver_mode(captcha_mode: usize) -> (r: Result<SolverMode, SolverError>)
    ensures
        captcha_mode == 0 ==> r == Err::<SolverMode, SolverError>(SolverError::LocalUnsupported),
        captcha_mode == 1 ==> r == Ok::<SolverMode, SolverError>(SolverMode::Remote),
        captcha_mode > 1 ==> r == Err::<SolverMode, SolverError>(SolverError::InvalidMode),
{
    match captcha_mode {
        0 => Err(SolverError::LocalUnsupported),
        1 => Ok(SolverMode::Remote),
        _ => Err(SolverError::InvalidMode),
    }
}

/// What to do after a poll of the captcha backend.
#[derive(Clone, Copy, Debug, PartialEq, Eq, Structural)]
pub enum PollMove {
    /// The solve is ready.
    Solved,
    /// Wait this long and poll again.
    Wait(u64),
    /// Give up: the solve timed out.
    TimedOut,
}

/// The move after the `attempt`-th poll (counting from 1).
pub fn after_poll(attempt: u32, solved: bool) -> (r: PollMove)
    ensures
        solved ==> r == PollMove::Solved,
        !solved && attempt >= SOLVE_POLL_ATTEMPTS ==> r == PollMove::TimedOut,
        !solved && attempt < SOLVE_POLL_ATTEMPTS ==> r == PollMove::Wait(SOLVE_POLL_DELAY_MS),
{
    if solved {
        PollMove::Solved
    } else if attempt >= SOLVE_POLL_ATTEMPTS {
        PollMove::TimedOut
    } else {
        PollMove::Wait(SOLVE_POLL_DELAY_MS)
    }
}

} // verus!
