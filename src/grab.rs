use vstd::prelude::*;
use vstd::string::StringExecFns;
use crate::classify::FatalKind;
use crate::pipeline::{FailReason, GrabParams, Outcome};
use crate::salvage::SalvageStop;

verus! {

/// How a grab task waits for and chases the sale.
#[derive(Clone, Copy, Debug, PartialEq, Eq, Structural)]
pub enum GrabMode {
    /// Wait out the countdown to the sale, then grab immediately.
    Scheduled,
    /// Grab now.
    Immediate,
    /// Watch every session and ticket type for released stock.
    Salvage,
}

/// The mode behind a request's mode number: 0 scheduled, 1 immediate, 2 salvage.
pub fn grab_mode_from(code: u8) -> (r: Option<GrabMode>)
    ensures
        code == 0 ==> r == Some(GrabMode::Scheduled),
        code == 1 ==> r == Some(GrabMode::Immediate),
        code == 2 ==> r == Some(GrabMode::Salvage),
        code > 2 ==> r == None::<GrabMode>,
{
    match code {
        0 => Some(GrabMode::Scheduled),
        1 => Some(GrabMode::Immediate),
        2 => Some(GrabMode::Salvage),
        _ => None,
    }
}

/// The pipeline limits of a mode.
pub fn params_for(mode: GrabMode) -> (r: GrabParams)
    ensures
        r.wf(),
        mode == GrabMode::Salvage ==> r.max_order_retries == Some(30u32) && r.max_token_retries == 1,
        mode != GrabMode::Salvage ==> r.max_order_retries == None::<u32> && r.max_token_retries == 5,
{
    match mode {
        GrabMode::Salvage => GrabParams::salvage(),
        _ => GrabParams::immediate(),
    }
}

/// The one result a grab task reports.
#[derive(Clone, Debug)]
pub struct GrabTicketResult {
    pub task_id: String,
    pub uid: i64,
    pub success: bool,
    pub message: String,
    pub order_id: Option<i64>,
    pub pay_token: Option<String>,
    /// Payment parameters of the order, as the vendor's JSON text.
    pub pay_param: Option<String>,
    /// The confirmed order details, as the vendor's JSON text.
    pub confirm_details: Option<String>,
}

/// Report text of a failure.
pub open spec fn fail_text(f: FailReason) -> Seq<char> {
    match f {
        FailReason::Fatal(k) => match k {
            FatalKind::Unsellable => "the project, session or ticket type is no longer on sale"@,
            FatalKind::PurchaseLimit => "single-purchaser project, or malformed request"@,
            FatalKind::NoBuyerConfigured => "no buyer is configured"@,
            FatalKind::UnpaidOrderPending => "a buyer holds an unpaid order"@,
            FatalKind::SaleClosed => "the sale has closed"@,
            FatalKind::BindTypeMismatch => "unexpected bind-type value"@,
            FatalKind::SingleBuyerOnly => "only one buyer may be selected"@,
        },
        FailReason::TokenRetriesExhausted => "token acquisition failed too many times"@,
        FailReason::OrderRetriesExhausted => "order submission failed too many times"@,
        FailReason::UnsupportedChallenge => "unsupported challenge kind"@,
        FailReason::Cancelled => "cancelled"@,
    }
}

/// Report text of a result.
pub open spec fn outcome_text(o: Outcome) -> Seq<char> {
    match o {
        Outcome::Success { .. } => "ticket purchased"@,
        Outcome::Failure(f) => fail_text(f),
    }
}

/// Report text of a salvage stop.
pub open spec fn stop_text(s: SalvageStop) -> Seq<char> {
    match s {
        SalvageStop::NotOnSale => "the project is no longer on sale"@,
        SalvageStop::UnsupportedBindType => "salvage mode needs a real-name project"@,
    }
}

/// The report text of a failure.
pub fn describe_failure(f: FailReason) -> (r: String)
    ensures
        r@ == fail_text(f),
{
    let s = match f {
        FailReason::Fatal(k) => match k {
            FatalKind::Unsellable => "the project, session or ticket type is no longer on sale",
            FatalKind::PurchaseLimit => "single-purchaser project, or malformed request",
            FatalKind::NoBuyerConfigured => "no buyer is configured",
            FatalKind::UnpaidOrderPending => "a buyer holds an unpaid order",
            FatalKind::SaleClosed => "the sale has closed",
            FatalKind::BindTypeMismatch => "unexpected bind-type value",
            FatalKind::SingleBuyerOnly => "only one buyer may be selected",
        },
        FailReason::TokenRetriesExhausted => "token acquisition failed too many times",
        FailReason::OrderRetriesExhausted => "order submission failed too many times",
        FailReason::UnsupportedChallenge => "unsupported challenge kind",
        FailReason::Cancelled => "cancelled",
    };
    String::from_str(s)
}

/// Packages the end of a grab task as its result.
pub fn grab_result(task_id: String, uid: i64, outcome: &Outcome) -> (r: GrabTicketResult)
    ensures
        r.task_id == task_id,
        r.uid == uid,
        r.success == (outcome is Success),
        r.message@ == outcome_text(*outcome),
        outcome is Success ==> r.order_id == Some(outcome->order_id)
            && r.pay_token == Some(outcome->pay_token) && r.pay_param == Some(outcome->pay_param)
            && r.confirm_details == Some(outcome->confirm_details),
        outcome is Failure ==> r.order_id is None && r.pay_token is None && r.pay_param is None
            && r.confirm_details is None,
{
    match outcome {
        Outcome::Success { order_id, pay_token, pay_param, confirm_details } => GrabTicketResult {
            task_id,
            uid,
            success: true,
            message: String::from_str("ticket purchased"),
            order_id: Some(*order_id),
            pay_token: Some(pay_token.clone()),
            pay_param: Some(pay_param.clone()),
            confirm_details: Some(confirm_details.clone()),
        },
        Outcome::Failure(f) => GrabTicketResult {
            task_id,
            uid,
            success: false,
            message: describe_failure(*f),
            order_id: None,
            pay_token: None,
            pay_param: None,
            confirm_details: None,
        },
    }
}

/// A failed result with the given text.
pub fn failed_result(task_id: String, uid: i64, message: String) -> (r: GrabTicketResult)
    ensures
        r == (GrabTicketResult {
            task_id,
            uid,
            success: false,
            message,
            order_id: None,
            pay_token: None,
            pay_param: None,
            confirm_details: None,
        }),
{
    GrabTicketResult {
        task_id,
        uid,
        success: false,
        message,
        order_id: None,
        pay_token: None,
        pay_param: None,
        confirm_details: None,
    }
}

/// The result of a salvage task that gave the project up.
pub fn stop_result(task_id: String, uid: i64, stop: SalvageStop) -> (r: GrabTicketResult)
    ensures
        r.task_id == task_id,
        r.uid == uid,
        !r.success,
        r.message@ == stop_text(stop),
        r.order_id is None && r.pay_token is None && r.pay_param is None && r.confirm_details is None,
{
    let text = match stop {
        SalvageStop::NotOnSale => "the project is no longer on sale",
        SalvageStop::UnsupportedBindType => "salvage mode needs a real-name project",
    };
    failed_result(task_id, uid, String::from_str(text))
}

/// The mode of a grab task, or, for an unknown mode number, the one failed
/// result that the task then reports at once.
pub fn start_grab(task_id: String, uid: i64, mode_code: u8) -> (r: Result<GrabMode, GrabTicketResult>)
    ensures
        mode_code == 0 ==> r == Ok::<GrabMode, GrabTicketResult>(GrabMode::Scheduled),
        mode_code == 1 ==> r == Ok::<GrabMode, GrabTicketResult>(GrabMode::Immediate),
        mode_code == 2 ==> r == Ok::<GrabMode, GrabTicketResult>(GrabMode::Salvage),
        mode_code > 2 ==> (r matches Err(res) && res.task_id == task_id && res.uid == uid && !res.success
            && res.message@ == "unknown grab mode"@ && res.order_id is None),
{
    match grab_mode_from(mode_code) {
        Some(m) => Ok(m),
        None => Err(failed_result(task_id, uid, String::from_str("unknown grab mode"))),
    }
}

} // verus!
