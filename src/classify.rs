use vstd::prelude::*;

verus! {

/// Why a vendor code ends a grab for good.
#[derive(Clone, Copy, Debug, PartialEq, Eq, Structural)]
pub enum FatalKind {
    /// The project, session or ticket type is no longer on sale.
    Unsellable,
    /// The project allows a single purchaser, or the request was malformed.
    PurchaseLimit,
    /// The account has no buyer configured.
    NoBuyerConfigured,
    /// A buyer already holds an unpaid order.
    UnpaidOrderPending,
    /// The sale window has closed.
    SaleClosed,
    /// The bind-type value was not what the project expects.
    BindTypeMismatch,
    /// Several buyers were selected for a single-buyer project.
    SingleBuyerOnly,
}

/// The class of a vendor business code.
#[derive(Clone, Copy, Debug, PartialEq, Eq, Structural)]
pub enum ErrorClass {
    /// Rate limiting or a momentary stock gap: retry at once with the same token.
    RetryFast,
    /// An explicit hard throttle: pause, then retry with the same token.
    RetryPaced,
    /// The token expired or is invalid: acquire a new one.
    RequiresNewToken,
    /// The grab cannot succeed.
    Terminal(FatalKind),
    /// A code outside the table: treated as a fast retry.
    Unknown,
}

/// The classifier table.
pub open spec fn class_of(code: i64) -> ErrorClass {
    if code == 100001 || code == 429 || code == 900001 || code == 100009 || code == 211 {
        ErrorClass::RetryFast
    } else if code == 3 {
        ErrorClass::RetryPaced
    } else if code == 100041 || code == 100050 {
        ErrorClass::RequiresNewToken
    } else if code == 100016 || code == 100017 {
        ErrorClass::Terminal(FatalKind::Unsellable)
    } else if code == 1 {
        ErrorClass::Terminal(FatalKind::PurchaseLimit)
    } else if code == 83000004 {
        ErrorClass::Terminal(FatalKind::NoBuyerConfigured)
    } else if code == 100079 || code == 100003 {
        ErrorClass::Terminal(FatalKind::UnpaidOrderPending)
    } else if code == 100039 {
        ErrorClass::Terminal(FatalKind::SaleClosed)
    } else if code == 919 {
        ErrorClass::Terminal(FatalKind::BindTypeMismatch)
    } else if code == 209001 {
        ErrorClass::Terminal(FatalKind::SingleBuyerOnly)
    } else {
        ErrorClass::Unknown
    }
}

/// The code reported when stock for the ticket type is insufficient.
pub const STOCK_SHORT_CODE: i64 = 100009;

/// Extra pause after a stock-insufficient reply, in milliseconds.
pub const STOCK_SHORT_PAUSE_MS: u64 = 600;

/// Pause imposed by a hard throttle, in milliseconds.
pub const THROTTLE_PAUSE_MS: u64 = 4800;

/// The pause that a code asks for on top of the fixed inter-attempt delay.
pub open spec fn extra_pause_of(code: i64) -> u64 {
    if code == STOCK_SHORT_CODE {
        STOCK_SHORT_PAUSE_MS
    } else if class_of(code) == ErrorClass::RetryPaced {
        THROTTLE_PAUSE_MS
    } else {
        0
    }
}

/// Whether a class keeps the current token and tries again.
pub open spec fn is_retry(c: ErrorClass) -> bool {
    c == ErrorClass::RetryFast || c == ErrorClass::RetryPaced || c == ErrorClass::Unknown
}

/// Classifies a vendor business code.
pub fn classify(code: i64) -> (r: ErrorClass)
    ensures
        r == class_of(code),
{
    match code {
        100001 | 429 | 900001 | 100009 | 211 => ErrorClass::RetryFast,
        3 => ErrorClass::RetryPaced,
        100041 | 100050 => ErrorClass::RequiresNewToken,
        100016 | 100017 => ErrorClass::Terminal(FatalKind::Unsellable),
        1 => ErrorClass::Terminal(FatalKind::PurchaseLimit),
        83000004 => ErrorClass::Terminal(FatalKind::NoBuyerConfigured),
        100079 | 100003 => ErrorClass::Terminal(FatalKind::UnpaidOrderPending),
        100039 => ErrorClass::Terminal(FatalKind::SaleClosed),
        919 => ErrorClass::Terminal(FatalKind::BindTypeMismatch),
        209001 => ErrorClass::Terminal(FatalKind::SingleBuyerOnly),
        _ => ErrorClass::Unknown,
    }
}

/// The pause, in milliseconds, that a code adds before the next attempt.
pub fn extra_pause_ms(code: i64) -> (r: u64)
    ensures
        r == extra_pause_of(code),
{
    if code == STOCK_SHORT_CODE {
        STOCK_SHORT_PAUSE_MS
    } else if code == 3 {
        THROTTLE_PAUSE_MS
    } else {
        0
    }
}

/// The codes of each class, listed row by row: every code not listed is
/// `Unknown`, and an unknown code is retried at once with no extra pause.
pub proof fn lemma_classifier_table(a: i64)
    ensures
        class_of(a) == ErrorClass::RetryFast <==> (a == 100001 || a == 429 || a == 900001 || a == 100009 || a == 211),
        class_of(a) == ErrorClass::RetryPaced <==> a == 3,
        class_of(a) == ErrorClass::RequiresNewToken <==> (a == 100041 || a == 100050),
        class_of(a) == ErrorClass::Terminal(FatalKind::Unsellable) <==> (a == 100016 || a == 100017),
        class_of(a) == ErrorClass::Terminal(FatalKind::PurchaseLimit) <==> a == 1,
        class_of(a) == ErrorClass::Terminal(FatalKind::NoBuyerConfigured) <==> a == 83000004,
        class_of(a) == ErrorClass::Terminal(FatalKind::UnpaidOrderPending) <==> (a == 100079 || a == 100003),
        class_of(a) == ErrorClass::Terminal(FatalKind::SaleClosed) <==> a == 100039,
        class_of(a) == ErrorClass::Terminal(FatalKind::BindTypeMismatch) <==> a == 919,
        class_of(a) == ErrorClass::Terminal(FatalKind::SingleBuyerOnly) <==> a == 209001,
        class_of(a) is Terminal <==> (a == 100016 || a == 100017 || a == 1 || a == 83000004 || a == 100079
            || a == 100003 || a == 100039 || a == 919 || a == 209001),
        class_of(a) == ErrorClass::Unknown ==> is_retry(class_of(a)) && extra_pause_of(a) == 0,
        extra_pause_of(a) == (if a == 100009 { STOCK_SHORT_PAUSE_MS } else if a == 3 { THROTTLE_PAUSE_MS } else { 0 }),
{
}

} // verus!
