use vstd::prelude::*;
use crate::classify::{class_of, classify, extra_pause_ms, extra_pause_of, ErrorClass, FatalKind};

verus! {

/// Per-mode limits and delays of the token → confirm → submit → verify pipeline.
#[derive(Clone, Copy, Debug, PartialEq, Eq, Structural)]
pub struct GrabParams {
    /// Unresolved token-acquisition failures allowed before the grab fails.
    pub max_token_retries: u32,
    /// Failed confirmations allowed before the token is abandoned.
    pub max_confirm_retries: u32,
    /// Order attempts allowed per candidate; `None` for no limit.
    pub max_order_retries: Option<u32>,
    /// Fixed delay between two order attempts, in milliseconds.
    pub order_delay_ms: u64,
    /// Delay before a new token request, in milliseconds.
    pub token_delay_ms: u64,
    /// Delay between two confirmation attempts, in milliseconds.
    pub confirm_delay_ms: u64,
}

/// The largest delay a parameter set may hold, in milliseconds.
pub const MAX_DELAY_MS: u64 = 3_600_000;

/// Order attempts after which the vendor is asked to queue the order.
pub const QUEUE_AFTER_ATTEMPTS: u32 = 3;

impl GrabParams {
    pub open spec fn wf(&self) -> bool {
        &&& self.max_token_retries >= 1
        &&& self.max_confirm_retries >= 1
        &&& self.order_delay_ms <= MAX_DELAY_MS
        &&& self.token_delay_ms <= MAX_DELAY_MS
        &&& self.confirm_delay_ms <= MAX_DELAY_MS
    }

    /// Limits of the immediate (and scheduled) mode.
    pub fn immediate() -> (r: GrabParams)
        ensures
            r.wf(),
            r.max_token_retries == 5,
            r.max_confirm_retries == 4,
            r.max_order_retries == None::<u32>,
            r.order_delay_ms == 400,
            r.token_delay_ms == 1000,
            r.confirm_delay_ms == 300,
    {
        GrabParams {
            max_token_retries: 5,
            max_confirm_retries: 4,
            max_order_retries: None,
            order_delay_ms: 400,
            token_delay_ms: 1000,
            confirm_delay_ms: 300,
        }
    }

    /// Limits of the salvage mode: each candidate gets one unresolved token
    /// failure and at most 30 order attempts.
    pub fn salvage() -> (r: GrabParams)
        ensures
            r.wf(),
            r.max_token_retries == 1,
            r.max_confirm_retries == 4,
            r.max_order_retries == Some(30u32),
            r.order_delay_ms == 400,
            r.token_delay_ms == 1000,
            r.confirm_delay_ms == 300,
    {
        GrabParams {
            max_token_retries: 1,
            max_confirm_retries: 4,
            max_order_retries: Some(30),
            order_delay_ms: 400,
            token_delay_ms: 1000,
            confirm_delay_ms: 300,
        }
    }
}

/// Stage of one grab unit.
#[derive(Clone, Copy, Debug, PartialEq, Eq, Structural)]
pub enum Phase {
    AcquireToken,
    SolveChallenge,
    ConfirmOrder,
    SubmitOrder,
    VerifyOrder,
    Done,
}

/// Result of the anti-bot challenge sub-flow.
#[derive(Clone, Copy, Debug, PartialEq, Eq, Structural)]
pub enum ChallengeOutcome {
    /// The solved challenge was accepted.
    Accepted,
    /// The solve or its submission failed.
    Rejected,
    /// The challenge is of a kind that cannot be solved.
    Unsupported,
}

/// Why a grab unit failed.
#[derive(Clone, Copy, Debug, PartialEq, Eq, Structural)]
pub enum FailReason {
    Fatal(FatalKind),
    TokenRetriesExhausted,
    OrderRetriesExhausted,
    UnsupportedChallenge,
    Cancelled,
}

/// The one terminal result of a grab unit.
#[derive(Clone, Debug)]
pub enum Outcome {
    /// A purchase: the order, its payment token, the payment parameters the
    /// authenticity check returned and the confirmed order details (both as
    /// the vendor's JSON text).
    Success { order_id: i64, pay_token: String, pay_param: String, confirm_details: String },
    Failure(FailReason),
}

/// What the caller has to do next.
#[derive(Clone, Debug)]
pub enum Action {
    RequestToken,
    SolveChallenge,
    ConfirmOrder,
    SubmitOrder { need_retry: bool },
    VerifyOrder,
    Finish(Outcome),
    Idle,
}

/// An action and the delay to wait before performing it.
#[derive(Clone, Debug)]
pub struct Step {
    pub action: Action,
    pub delay_ms: u64,
}

/// What came back from the last action.
#[derive(Clone, Debug)]
pub enum Event {
    TokenGranted(String),
    TokenRejected(i64),
    Challenge(ChallengeOutcome),
    /// The confirmed order details, as the vendor's JSON text.
    ConfirmSucceeded(String),
    ConfirmFailed,
    OrderCreated { order_id: i64, pay_token: String },
    OrderRejected(i64),
    /// The payment parameters, as the vendor's JSON text.
    VerifyPassed(String),
    VerifyFailed,
}

/// State of one grab unit.
#[derive(Clone, Debug)]
pub struct GrabState {
    pub phase: Phase,
    pub params: GrabParams,
    pub token: String,
    pub order_id: i64,
    pub pay_token: String,
    pub confirm_details: String,
    pub token_retries: u32,
    pub confirm_retries: u32,
    pub order_retries: u32,
    pub cancelled: bool,
}

/// The step that performs `action` after `delay_ms`.
pub open spec fn step_of(action: Action, delay_ms: u64) -> Step {
    Step { action, delay_ms }
}

/// A token rejection that carries an anti-bot challenge.
pub open spec fn is_challenge_code(code: i64) -> bool {
    code == -401 || code == 401
}

/// A class that ends the grab.
pub open spec fn is_terminal(c: ErrorClass) -> bool {
    c is Terminal
}

/// The unit ends with `o`.
pub open spec fn finished(s: GrabState, o: Outcome) -> (GrabState, Step) {
    (GrabState { phase: Phase::Done, ..s }, step_of(Action::Finish(o), 0))
}

/// An unresolved token-acquisition failure.
pub open spec fn token_failed(s: GrabState) -> (GrabState, Step) {
    let n = (s.token_retries + 1) as u32;
    if n >= s.params.max_token_retries {
        finished(
            GrabState { token_retries: n, ..s },
            Outcome::Failure(FailReason::TokenRetriesExhausted),
        )
    } else {
        (
            GrabState { phase: Phase::AcquireToken, token_retries: n, ..s },
            step_of(Action::RequestToken, s.params.token_delay_ms),
        )
    }
}

/// Another order attempt with the same token after `pause` extra milliseconds.
pub open spec fn order_again(s: GrabState, pause: u64) -> (GrabState, Step) {
    let n = if s.order_retries < u32::MAX { (s.order_retries + 1) as u32 } else { s.order_retries };
    if s.params.max_order_retries matches Some(m) && n >= m {
        finished(
            GrabState { order_retries: n, ..s },
            Outcome::Failure(FailReason::OrderRetriesExhausted),
        )
    } else {
        (
            GrabState { phase: Phase::SubmitOrder, order_retries: n, ..s },
            step_of(
                Action::SubmitOrder { need_retry: n >= QUEUE_AFTER_ATTEMPTS },
                (s.params.order_delay_ms + pause) as u64,
            ),
        )
    }
}

/// The transition table of a grab unit.
pub open spec fn next(s: GrabState, e: Event) -> (GrabState, Step) {
    let cancel = finished(s, Outcome::Failure(FailReason::Cancelled));
    let ignore = (s, step_of(Action::Idle, 0));
    match s.phase {
        Phase::Done => ignore,
        Phase::AcquireToken => match e {
            Event::TokenGranted(t) => if s.cancelled { cancel } else {
                (
                    GrabState { phase: Phase::ConfirmOrder, token: t, confirm_retries: 0, ..s },
                    step_of(Action::ConfirmOrder, 0),
                )
            },
            Event::TokenRejected(code) => if s.cancelled { cancel } else if is_challenge_code(code) {
                (GrabState { phase: Phase::SolveChallenge, ..s }, step_of(Action::SolveChallenge, 0))
            } else if let ErrorClass::Terminal(k) = class_of(code) {
                finished(s, Outcome::Failure(FailReason::Fatal(k)))
            } else {
                token_failed(s)
            },
            _ => ignore,
        },
        Phase::SolveChallenge => match e {
            Event::Challenge(o) => if s.cancelled { cancel } else {
                match o {
                    ChallengeOutcome::Accepted => (
                        GrabState { phase: Phase::AcquireToken, ..s },
                        step_of(Action::RequestToken, s.params.token_delay_ms),
                    ),
                    ChallengeOutcome::Rejected => token_failed(s),
                    ChallengeOutcome::Unsupported => finished(
                        s,
                        Outcome::Failure(FailReason::UnsupportedChallenge),
                    ),
                }
            },
            _ => ignore,
        },
        Phase::ConfirmOrder => match e {
            Event::ConfirmSucceeded(d) => if s.cancelled { cancel } else {
                (
                    GrabState { phase: Phase::SubmitOrder, order_retries: 0, confirm_details: d, ..s },
                    step_of(Action::SubmitOrder { need_retry: false }, 0),
                )
            },
            Event::ConfirmFailed => if s.cancelled { cancel } else {
                let n = (s.confirm_retries + 1) as u32;
                if n >= s.params.max_confirm_retries {
                    (
                        GrabState { phase: Phase::AcquireToken, confirm_retries: 0, ..s },
                        step_of(Action::RequestToken, s.params.token_delay_ms),
                    )
                } else {
                    (
                        GrabState { confirm_retries: n, ..s },
                        step_of(Action::ConfirmOrder, s.params.confirm_delay_ms),
                    )
                }
            },
            _ => ignore,
        },
        Phase::SubmitOrder => match e {
            Event::OrderCreated { order_id, pay_token } => (
                GrabState { phase: Phase::VerifyOrder, order_id, pay_token, ..s },
                step_of(Action::VerifyOrder, 0),
            ),
            Event::OrderRejected(code) => if s.cancelled { cancel } else {
                match class_of(code) {
                    ErrorClass::Terminal(k) => finished(s, Outcome::Failure(FailReason::Fatal(k))),
                    ErrorClass::RequiresNewToken => (
                        GrabState { phase: Phase::AcquireToken, ..s },
                        step_of(Action::RequestToken, 0),
                    ),
                    _ => order_again(s, extra_pause_of(code)),
                }
            },
            _ => ignore,
        },
        Phase::VerifyOrder => match e {
            Event::VerifyPassed(p) => finished(
                s,
                Outcome::Success {
                    order_id: s.order_id,
                    pay_token: s.pay_token,
                    pay_param: p,
                    confirm_details: s.confirm_details,
                },
            ),
            Event::VerifyFailed => if s.cancelled { cancel } else { order_again(s, 0) },
            _ => ignore,
        },
    }
}

impl GrabState {
    /// Counters stay below their ceilings while the unit runs.
    pub open spec fn inv(&self) -> bool {
        &&& self.params.wf()
        &&& self.phase != Phase::Done ==> self.token_retries < self.params.max_token_retries
        &&& self.phase != Phase::Done ==> self.confirm_retries < self.params.max_confirm_retries
    }

    /// A fresh unit, about to request its first token.
    pub fn new(params: GrabParams) -> (r: GrabState)
        requires
            params.wf(),
        ensures
            r.inv(),
            r.phase == Phase::AcquireToken,
            r.params == params,
            r.token_retries == 0,
            r.confirm_retries == 0,
            r.order_retries == 0,
            !r.cancelled,
    {
        GrabState {
            phase: Phase::AcquireToken,
            params,
            token: String::new(),
            order_id: 0,
            pay_token: String::new(),
            confirm_details: String::new(),
            token_retries: 0,
            confirm_retries: 0,
            order_retries: 0,
            cancelled: false,
        }
    }

    /// The first action of a fresh unit.
    pub fn start(&self) -> (r: Step)
        ensures
            r.action is RequestToken,
            r.delay_ms == 0,
    {
        Step { action: Action::RequestToken, delay_ms: 0 }
    }

    /// Asks the unit to stop; it does so at its next stage boundary.
    pub fn cancel(&mut self)
        ensures
            *final(self) == (GrabState { cancelled: true, ..*old(self) }),
    {
        self.cancelled = true;
    }

    /// Ends a cancelled unit before its next call, unless it is done or is
    /// about to check an order already created.
    pub fn stop_if_cancelled(&mut self) -> (r: Option<Step>)
        requires
            old(self).inv(),
        ensures
            final(self).inv(),
            old(self).cancelled && old(self).phase != Phase::Done && old(self).phase != Phase::VerifyOrder
                ==> r == Some(finished(*old(self), Outcome::Failure(FailReason::Cancelled)).1)
                && *final(self) == finished(*old(self), Outcome::Failure(FailReason::Cancelled)).0,
            !(old(self).cancelled && old(self).phase != Phase::Done && old(self).phase != Phase::VerifyOrder)
                ==> r is None && *final(self) == *old(self),
    {
        if self.cancelled && self.phase != Phase::Done && self.phase != Phase::VerifyOrder {
            Some(self.finish(Outcome::Failure(FailReason::Cancelled)))
        } else {
            None
        }
    }

    pub fn is_done(&self) -> (r: bool)
        ensures
            r == (self.phase == Phase::Done),
    {
        self.phase == Phase::Done
    }

    fn finish(&mut self, o: Outcome) -> (r: Step)
        ensures
            (*final(self), r) == finished(*old(self), o),
    {
        self.phase = Phase::Done;
        Step { action: Action::Finish(o), delay_ms: 0 }
    }

    fn on_token_failure(&mut self) -> (r: Step)
        requires
            old(self).inv(),
            old(self).phase != Phase::Done,
        ensures
            (*final(self), r) == token_failed(*old(self)),
    {
        let n = self.token_retries + 1;
        self.token_retries = n;
        if n >= self.params.max_token_retries {
            self.finish(Outcome::Failure(FailReason::TokenRetriesExhausted))
        } else {
            self.phase = Phase::AcquireToken;
            Step { action: Action::RequestToken, delay_ms: self.params.token_delay_ms }
        }
    }

    fn on_order_retry(&mut self, pause: u64) -> (r: Step)
        requires
            old(self).inv(),
            pause <= MAX_DELAY_MS,
        ensures
            (*final(self), r) == order_again(*old(self), pause),
    {
        let n = if self.order_retries < u32::MAX { self.order_retries + 1 } else { self.order_retries };
        self.order_retries = n;
        let exhausted = match self.params.max_order_retries {
            Some(m) => n >= m,
            None => false,
        };
        if exhausted {
            self.finish(Outcome::Failure(FailReason::OrderRetriesExhausted))
        } else {
            self.phase = Phase::SubmitOrder;
            Step {
                action: Action::SubmitOrder { need_retry: n >= QUEUE_AFTER_ATTEMPTS },
                delay_ms: self.params.order_delay_ms + pause,
            }
        }
    }

    /// Feeds the result of the last action and returns the next one.
    pub fn step(&mut self, e: Event) -> (r: Step)
        requires
            old(self).inv(),
        ensures
            (*final(self), r) == next(*old(self), e),
            final(self).inv(),
    {
        let ghost s0 = *self;
        match self.phase {
            Phase::Done => Step { action: Action::Idle, delay_ms: 0 },
            Phase::AcquireToken => match e {
                Event::TokenGranted(t) => {
                    if self.cancelled {
                        return self.finish(Outcome::Failure(FailReason::Cancelled));
                    }
                    self.phase = Phase::ConfirmOrder;
                    self.token = t;
                    self.confirm_retries = 0;
                    Step { action: Action::ConfirmOrder, delay_ms: 0 }
                },
                Event::TokenRejected(code) => {
                    if self.cancelled {
                        return self.finish(Outcome::Failure(FailReason::Cancelled));
                    }
                    if code == -401 || code == 401 {
                        self.phase = Phase::SolveChallenge;
                        return Step { action: Action::SolveChallenge, delay_ms: 0 };
                    }
                    match classify(code) {
                        ErrorClass::Terminal(k) => self.finish(Outcome::Failure(FailReason::Fatal(k))),
                        _ => self.on_token_failure(),
                    }
                },
                _ => Step { action: Action::Idle, delay_ms: 0 },
            },
            Phase::SolveChallenge => match e {
                Event::Challenge(o) => {
                    if self.cancelled {
                        return self.finish(Outcome::Failure(FailReason::Cancelled));
                    }
                    match o {
                        ChallengeOutcome::Accepted => {
                            self.phase = Phase::AcquireToken;
                            Step { action: Action::RequestToken, delay_ms: self.params.token_delay_ms }
                        },
                        ChallengeOutcome::Rejected => self.on_token_failure(),
                        ChallengeOutcome::Unsupported => {
                            self.finish(Outcome::Failure(FailReason::UnsupportedChallenge))
                        },
                    }
                },
                _ => Step { action: Action::Idle, delay_ms: 0 },
            },
            Phase::ConfirmOrder => match e {
                Event::ConfirmSucceeded(d) => {
                    if self.cancelled {
                        return self.finish(Outcome::Failure(FailReason::Cancelled));
                    }
                    self.phase = Phase::SubmitOrder;
                    self.confirm_details = d;
                    self.order_retries = 0;
                    Step { action: Action::SubmitOrder { need_retry: false }, delay_ms: 0 }
                },
                Event::ConfirmFailed => {
                    if self.cancelled {
                        return self.finish(Outcome::Failure(FailReason::Cancelled));
                    }
                    let n = self.confirm_retries + 1;
                    if n >= self.params.max_confirm_retries {
                        self.phase = Phase::AcquireToken;
                        self.confirm_retries = 0;
                        Step { action: Action::RequestToken, delay_ms: self.params.token_delay_ms }
                    } else {
                        self.confirm_retries = n;
                        Step { action: Action::ConfirmOrder, delay_ms: self.params.confirm_delay_ms }
                    }
                },
                _ => Step { action: Action::Idle, delay_ms: 0 },
            },
            Phase::SubmitOrder => match e {
                Event::OrderCreated { order_id, pay_token } => {
                    self.phase = Phase::VerifyOrder;
                    self.order_id = order_id;
                    self.pay_token = pay_token;
                    Step { action: Action::VerifyOrder, delay_ms: 0 }
                },
                Event::OrderRejected(code) => {
                    if self.cancelled {
                        return self.finish(Outcome::Failure(FailReason::Cancelled));
                    }
                    match classify(code) {
                        ErrorClass::Terminal(k) => self.finish(Outcome::Failure(FailReason::Fatal(k))),
                        ErrorClass::RequiresNewToken => {
                            self.phase = Phase::AcquireToken;
                            Step { action: Action::RequestToken, delay_ms: 0 }
                        },
                        _ => {
                            let pause = extra_pause_ms(code);
                            self.on_order_retry(pause)
                        },
                    }
                },
                _ => Step { action: Action::Idle, delay_ms: 0 },
            },
            Phase::VerifyOrder => match e {
                Event::VerifyPassed(p) => {
                    let o = Outcome::Success {
                        order_id: self.order_id,
                        pay_token: self.pay_token.clone(),
                        pay_param: p,
                        confirm_details: self.confirm_details.clone(),
                    };
                    self.finish(o)
                },
                Event::VerifyFailed => {
                    if self.cancelled {
                        return self.finish(Outcome::Failure(FailReason::Cancelled));
                    }
                    self.on_order_retry(0)
                },
                _ => Step { action: Action::Idle, delay_ms: 0 },
            },
        }
    }
}


/// The state after feeding `events` in order.
pub open spec fn run(s: GrabState, events: Seq<Event>) -> GrabState
    decreases events.len(),
{
    if events.len() == 0 {
        s
    } else {
        run(next(s, events[0]).0, events.drop_first())
    }
}

/// How many terminal results are produced while feeding `events` in order.
pub open spec fn results_emitted(s: GrabState, events: Seq<Event>) -> nat
    decreases events.len(),
{
    if events.len() == 0 {
        0
    } else {
        let (t, st) = next(s, events[0]);
        (if st.action is Finish { 1nat } else { 0nat }) + results_emitted(t, events.drop_first())
    }
}

/// A step emits a result exactly when it ends the unit, and an ended unit
/// stays as it is.
pub proof fn lemma_finish_ends_unit(s: GrabState, e: Event)
    ensures
        next(s, e).1.action is Finish <==> (s.phase != Phase::Done && next(s, e).0.phase == Phase::Done),
        s.phase == Phase::Done ==> next(s, e).0 == s && next(s, e).1.action is Idle,
{
}

/// Whatever events arrive, a unit emits exactly one result if it ends and
/// none while it runs; an ended unit emits nothing more.
pub proof fn lemma_one_result_per_unit(s: GrabState, events: Seq<Event>)
    ensures
        results_emitted(s, events) == (if s.phase != Phase::Done && run(s, events).phase == Phase::Done {
            1nat
        } else {
            0nat
        }),
    decreases events.len(),
{
    if events.len() > 0 {
        lemma_finish_ends_unit(s, events[0]);
        lemma_one_result_per_unit(next(s, events[0]).0, events.drop_first());
        if next(s, events[0]).0.phase == Phase::Done {
            lemma_run_done_stays(next(s, events[0]).0, events.drop_first());
        }
    }
}

/// An ended unit is left untouched by any further events.
pub proof fn lemma_run_done_stays(s: GrabState, events: Seq<Event>)
    requires
        s.phase == Phase::Done,
    ensures
        run(s, events) == s,
        results_emitted(s, events) == 0,
    decreases events.len(),
{
    if events.len() > 0 {
        lemma_run_done_stays(next(s, events[0]).0, events.drop_first());
    }
}

/// A token-acquisition failure that the challenge sub-flow did not resolve.
pub open spec fn unresolved_token_failure(s: GrabState, e: Event) -> bool {
    &&& s.phase != Phase::Done
    &&& !s.cancelled
    &&& {
        ||| s.phase == Phase::AcquireToken && (e matches Event::TokenRejected(code)
            && !is_challenge_code(code) && !is_terminal(class_of(code)))
        ||| s.phase == Phase::SolveChallenge && e == Event::Challenge(ChallengeOutcome::Rejected)
    }
}

/// The token-retry counter grows by one on an unresolved token-acquisition
/// failure and on nothing else; an accepted challenge leaves it as it was.
pub proof fn lemma_token_counter(s: GrabState, e: Event)
    requires
        s.inv(),
    ensures
        next(s, e).0.token_retries == s.token_retries + (if unresolved_token_failure(s, e) {
            1int
        } else {
            0int
        }),
        s.phase == Phase::SolveChallenge && e == Event::Challenge(ChallengeOutcome::Accepted)
            ==> next(s, e).0.token_retries == s.token_retries,
{
}

/// Once cancelled, a running unit schedules no further delay and ends at the
/// next event, except that an order already created is still verified, which
/// the event after that ends.
pub proof fn lemma_cancel_ends_unit(s: GrabState, e: Event)
    requires
        s.inv(),
        s.cancelled,
        s.phase != Phase::Done,
    ensures
        next(s, e).1.delay_ms == 0,
        next(s, e).0.phase == Phase::Done
            || next(s, e).0 == s
            || (s.phase == Phase::SubmitOrder && next(s, e).0.phase == Phase::VerifyOrder
                && next(s, e).0.cancelled),
        s.phase == Phase::SubmitOrder && e is OrderRejected ==> next(s, e).0.phase == Phase::Done
            && next(s, e).1.action == Action::Finish(Outcome::Failure(FailReason::Cancelled)),
{
}

/// `n` rounds of a challenge raised on a token request and then accepted.
pub open spec fn challenge_rounds(n: nat) -> Seq<Event>
    decreases n,
{
    if n == 0 {
        Seq::empty()
    } else {
        seq![Event::TokenRejected(-401i64), Event::Challenge(ChallengeOutcome::Accepted)] + challenge_rounds((n - 1) as nat)
    }
}

/// However many challenges are raised and accepted in a row, a running unit
/// that is not cancelled comes back to requesting a token with its state,
/// token-retry counter included, unchanged, and emits no result.
pub proof fn lemma_accepted_challenges_keep_counter(s: GrabState, n: nat)
    requires
        s.inv(),
        s.phase == Phase::AcquireToken,
        !s.cancelled,
    ensures
        run(s, challenge_rounds(n)) == s,
        results_emitted(s, challenge_rounds(n)) == 0,
    decreases n,
{
    if n > 0 {
        let evs = challenge_rounds(n);
        let rest = challenge_rounds((n - 1) as nat);
        let s1 = next(s, Event::TokenRejected(-401i64)).0;
        assert(evs[0] == Event::TokenRejected(-401i64));
        assert(evs.drop_first() =~= seq![Event::Challenge(ChallengeOutcome::Accepted)] + rest);
        let evs1 = evs.drop_first();
        assert(evs1[0] == Event::Challenge(ChallengeOutcome::Accepted));
        assert(evs1.drop_first() =~= rest);
        assert(next(s1, Event::Challenge(ChallengeOutcome::Accepted)).0 == s);
        assert(!(next(s, evs[0]).1.action is Finish));
        assert(!(next(s1, evs1[0]).1.action is Finish));
        lemma_accepted_challenges_keep_counter(s, (n - 1) as nat);
        assert(run(s1, evs1) == run(s, rest));
        assert(run(s, evs) == run(s1, evs1));
        assert(results_emitted(s1, evs1) == results_emitted(s, rest));
        assert(results_emitted(s, evs) == results_emitted(s1, evs1));
    }
}

} // verus!
