use vstd::prelude::*;
use crate::login::QrCodeLoginStatus;
use crate::push::PushConfig;
use crate::registry::TaskStatus;

verus! {

/// Notification channel of a push request.
#[derive(Clone, Copy, Debug, PartialEq, Eq, Structural)]
pub enum PushType {
    All,
    Bark,
    PushPlus,
    Fangtang,
    Dingtalk,
    WeChat,
    Smtp,
}

/// A notification to send.
#[derive(Clone, Debug)]
pub struct PushRequest {
    pub title: String,
    pub message: String,
    pub push_config: PushConfig,
    pub push_type: PushType,
}

/// Outcome of a notification.
#[derive(Clone, Debug)]
pub struct PushRequestResult {
    pub task_id: String,
    pub success: bool,
    pub message: String,
    pub push_type: PushType,
}

/// A notification task.
pub struct PushTask {
    pub task_id: String,
    pub title: String,
    pub message: String,
    pub push_type: PushType,
    pub status: TaskStatus,
    pub start_time: Option<std::time::Instant>,
}

/// A QR-code login task.
pub struct QrCodeLoginTask {
    pub task_id: String,
    pub qrcode_key: String,
    pub qrcode_url: String,
    pub status: TaskStatus,
    pub start_time: Option<std::time::Instant>,
}

/// A login-SMS request task.
pub struct LoginSmsRequestTask {
    pub task_id: String,
    pub phone: String,
    pub status: TaskStatus,
    pub start_time: Option<std::time::Instant>,
}

/// A login-SMS submission task.
pub struct SubmitLoginSmsRequestTask {
    pub task_id: String,
    pub phone: String,
    pub code: String,
    pub captcha_key: String,
    pub status: TaskStatus,
    pub start_time: Option<std::time::Instant>,
}

/// A ticket request of an account.
#[derive(Clone, Debug)]
pub struct TicketRequest {
    pub ticket_id: String,
    pub account_id: String,
}

/// A QR-code login request.
#[derive(Clone, Debug)]
pub struct QrCodeLoginRequest {
    pub qrcode_key: String,
    pub qrcode_url: String,
    pub user_agent: Option<String>,
}

/// Outcome of a QR-code login.
#[derive(Clone, Debug)]
pub struct TaskQrCodeLoginResult {
    pub task_id: String,
    pub status: QrCodeLoginStatus,
    pub cookie: Option<String>,
    pub error: Option<String>,
}

/// Outcome of a login-SMS request.
#[derive(Clone, Debug)]
pub struct LoginSmsRequestResult {
    pub task_id: String,
    pub phone: String,
    pub success: bool,
    pub message: String,
}

/// Outcome of a login-SMS submission.
#[derive(Clone, Debug)]
pub struct SubmitSmsLoginResult {
    pub task_id: String,
    pub phone: String,
    pub success: bool,
    pub message: String,
    pub cookie: Option<String>,
}

/// The cookie and error carried by a QR-code login result: the cookie on
/// success, the error text on failure, neither otherwise.
pub fn qrcode_login_result(task_id: String, status: QrCodeLoginStatus) -> (r: TaskQrCodeLoginResult)
    ensures
        r.task_id == task_id,
        r.status == status,
        status matches QrCodeLoginStatus::Success(c) ==> r.cookie == Some(c) && r.error is None,
        status matches QrCodeLoginStatus::Failed(e) ==> r.error == Some(e) && r.cookie is None,
        !(status is Success) && !(status is Failed) ==> r.cookie is None && r.error is None,
{
    let (cookie, error) = match &status {
        QrCodeLoginStatus::Success(c) => (Some(c.clone()), None),
        QrCodeLoginStatus::Failed(e) => (None, Some(e.clone())),
        _ => (None, None),
    };
    TaskQrCodeLoginResult { task_id, status, cookie, error }
}

} // verus!
