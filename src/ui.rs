use vstd::prelude::*;
use vstd::string::StringExecFns;
use crate::orders::OrderResponse;

verus! {

/// Kind of a notification banner.
#[derive(Clone, Copy, Debug, PartialEq, Eq, Structural)]
pub enum BannerType {
    Error,
    Success,
}

/// The add-buyer form.
#[derive(Clone, Debug)]
pub struct AddBuyerInput {
    pub name: String,
    pub phone: String,
    pub id_type: usize,
    pub id_number: String,
    pub as_default_buyer: bool,
}

/// Whether an account takes part in grabbing.
#[derive(Clone, Debug)]
pub struct AccountSwitch {
    pub uid: String,
    pub switch: bool,
}

/// The order list fetched for one account.
#[derive(Clone, Debug)]
pub struct OrderData {
    pub account_id: String,
    pub data: Option<OrderResponse>,
}

/// State of a browser-driven login.
#[derive(Clone, Debug)]
pub enum SeleniumLoginStatus {
    NotStarted,
    Connecting,
    WaitingForLogin,
    /// Carries the cookie obtained.
    LoggedIn(String),
    /// Carries the error text.
    Failed(String),
}

/// The form value of the default-buyer flag.
pub fn check_default(is_default: bool) -> (r: &'static str)
    ensures
        r@ == (if is_default { "1"@ } else { "0"@ }),
{
    if is_default { "1" } else { "0" }
}

/// Input hint for an identity-document type.
pub open spec fn id_hint(id_type: usize) -> Seq<char> {
    if id_type == 0 {
        "请输入18位身份证号码"@
    } else if id_type == 1 {
        "请输入护照号码"@
    } else if id_type == 2 {
        "请输入港澳通行证号码"@
    } else if id_type == 3 {
        "请输入台湾通行证号码"@
    } else {
        "请输入证件号码"@
    }
}

/// Input hint for an identity-document type.
pub fn get_id_hint(id_type: usize) -> (r: &'static str)
    ensures
        r@ == id_hint(id_type),
{
    match id_type {
        0 => "请输入18位身份证号码",
        1 => "请输入护照号码",
        2 => "请输入港澳通行证号码",
        3 => "请输入台湾通行证号码",
        _ => "请输入证件号码",
    }
}

/// `n` asterisks.
pub open spec fn stars(n: nat) -> Seq<char> {
    Seq::new(n, |i: int| '*')
}

/// An identity number with all but its first and last three characters
/// masked, by at most six asterisks; six characters or fewer stay as they are.
pub open spec fn masked(id: Seq<char>) -> Seq<char> {
    if id.len() <= 6 {
        id
    } else {
        let k: nat = if id.len() - 6 > 6 { 6 } else { (id.len() - 6) as nat };
        id.subrange(0, 3) + stars(k) + id.subrange(id.len() - 3, id.len() as int)
    }
}

/// Masks an identity number for display.
pub fn mask_id(id: &str) -> (r: String)
    ensures
        r@ == masked(id@),
{
    let n = id.unicode_len();
    if n <= 6 {
        return id.to_string();
    }
    let k: usize = if n - 6 > 6 { 6 } else { n - 6 };
    let mut out = String::from_str(id.substring_char(0, 3));
    let mut i: usize = 0;
    while i < k
        invariant
            i <= k,
            out@ == id@.subrange(0, 3) + stars(i as nat),
        decreases k - i,
    {
        out.append("*");
        proof {
            reveal_strlit("*");
        }
        assert(out@ =~= id@.subrange(0, 3) + stars((i + 1) as nat));
        i = i + 1;
    }
    out.append(id.substring_char(n - 3, n));
    out
}

} // verus!
