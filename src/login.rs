use vstd::prelude::*;
use vstd::string::StringExecFns;

verus! {

/// Credentials typed into the login form.
#[derive(Clone, Debug)]
pub struct LoginInput {
    pub phone: String,
    pub account: String,
    pub password: String,
    pub sms_code: String,
    pub cookie: String,
}

/// State of a QR-code login.
#[derive(Clone, Debug)]
pub enum QrCodeLoginStatus {
    Pending,
    Scanning,
    Confirming,
    /// Logged in; carries the cookie.
    Success(String),
    /// Carries the error text.
    Failed(String),
    Expired,
}

/// Outcome of asking for a login SMS.
#[derive(Clone, Debug)]
pub enum SendLoginSmsStatus {
    Success(String),
    Failed(String),
}

/// A QR-code login in progress.
pub struct QrCodeLoginTask {
    pub qrcode_key: String,
    pub qrcode_url: String,
    pub start_time: std::time::Instant,
    pub status: QrCodeLoginStatus,
}

/// The scan page used in place of password login, which the vendor does not offer.
pub open spec fn password_login_page() -> Seq<char> {
    "https://account.bilibili.com/h5/account-h5/auth/scan-web?navhide=1&callback=close&qrcode_key=7d0bd3e133117eab86bc5f42f8731e0e&from=main-fe-header"@
}

/// Password login is not offered: this always hands back the scan page.
pub fn password_login(username: &str, password: &str) -> (r: Result<String, String>)
    ensures
        r matches Ok(page) && page@ == password_login_page(),
{
    Ok(String::from_str(
        "https://account.bilibili.com/h5/account-h5/auth/scan-web?navhide=1&callback=close&qrcode_key=7d0bd3e133117eab86bc5f42f8731e0e&from=main-fe-header",
    ))
}

/// Polls of a QR-code login before it is given up as expired.
pub const QR_POLL_ATTEMPTS: u32 = 60;

/// Delay between two polls of a QR-code login, in milliseconds.
pub const QR_POLL_DELAY_MS: u64 = 1000;

/// What to do after one poll of a QR-code login.
#[derive(Clone, Debug)]
pub enum QrPollMove {
    /// The login ended in this state.
    Done(QrCodeLoginStatus),
    /// Nobody confirmed yet: wait and poll again.
    Wait(u64),
}

/// The cookie pairs joined as a `Cookie` header value.
pub open spec fn joined(parts: Seq<Seq<char>>) -> Seq<char>
    decreases parts.len(),
{
    if parts.len() == 0 {
        Seq::empty()
    } else if parts.len() == 1 {
        parts[0]
    } else {
        joined(parts.drop_last()) + "; "@ + parts.last()
    }
}

/// Joins cookie pairs with `; `.
pub fn join_cookies(parts: &Vec<String>) -> (r: String)
    ensures
        r@ == joined(Seq::new(parts@.len(), |i: int| parts@[i]@)),
{
    let ghost views = Seq::new(parts@.len(), |i: int| parts@[i]@);
    let mut out = String::new();
    let mut i: usize = 0;
    while i < parts.len()
        invariant
            i <= parts@.len(),
            views == Seq::new(parts@.len(), |k: int| parts@[k]@),
            out@ == joined(views.take(i as int)),
        decreases parts@.len() - i,
    {
        if i > 0 {
            out.append("; ");
        }
        out.append(parts[i].as_str());
        proof {
            let t = views.take(i + 1);
            assert(t.drop_last() =~= views.take(i as int));
            if i == 0 {
                assert(views.take(0).len() == 0);
            }
        }
        i = i + 1;
    }
    assert(views.take(parts@.len() as int) =~= views);
    out
}

/// The move after the `attempt`-th poll (counting from 1) answered `code`:
/// 0 logs in with the cookie (failing when there is none), 86038 means the code
/// expired, 86090 (scanned) and 86101 (not scanned) wait unless the polls are
/// used up, and any other code fails with the reply's message.
pub fn qrcode_poll_move(code: i64, attempt: u32, cookie: String, message: String) -> (r: QrPollMove)
    ensures
        code == 0 && cookie@.len() > 0 ==> r == QrPollMove::Done(QrCodeLoginStatus::Success(cookie)),
        code == 0 && cookie@.len() == 0 ==> r matches QrPollMove::Done(QrCodeLoginStatus::Failed(_)),
        code == 86038 ==> r == QrPollMove::Done(QrCodeLoginStatus::Expired),
        (code == 86090 || code == 86101) && attempt + 1 < QR_POLL_ATTEMPTS ==> r == QrPollMove::Wait(QR_POLL_DELAY_MS),
        (code == 86090 || code == 86101) && attempt + 1 >= QR_POLL_ATTEMPTS ==> r == QrPollMove::Done(QrCodeLoginStatus::Expired),
        code != 0 && code != 86038 && code != 86090 && code != 86101 ==> r == QrPollMove::Done(QrCodeLoginStatus::Failed(message)),
{
    if code == 0 {
        if cookie.unicode_len() > 0 {
            QrPollMove::Done(QrCodeLoginStatus::Success(cookie))
        } else {
            QrPollMove::Done(QrCodeLoginStatus::Failed(String::from_str("no cookie in the login reply")))
        }
    } else if code == 86038 {
        QrPollMove::Done(QrCodeLoginStatus::Expired)
    } else if code == 86090 || code == 86101 {
        if attempt >= QR_POLL_ATTEMPTS - 1 {
            QrPollMove::Done(QrCodeLoginStatus::Expired)
        } else {
            QrPollMove::Wait(QR_POLL_DELAY_MS)
        }
    } else {
        QrPollMove::Done(QrCodeLoginStatus::Failed(message))
    }
}

} // verus!
