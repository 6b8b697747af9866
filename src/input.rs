use vstd::prelude::*;
use vstd::string::StringExecFns;
use crate::text::{contains, find_text, first_at, occurs_at, text_contains};

verus! {

pub open spec fn is_digit(c: char) -> bool {
    '0' <= c && c <= '9'
}

/// Value of a run of decimal digits.
pub open spec fn digits_value(ds: Seq<char>) -> int
    decreases ds.len(),
{
    if ds.len() == 0 {
        0
    } else {
        digits_value(ds.drop_last()) * 10 + (ds.last() as int - '0' as int)
    }
}

/// What `str::parse::<u32>` accepts: an optional `+`, then one or more
/// decimal digits whose value fits in a `u32`.
pub open spec fn parses_u32(s: Seq<char>) -> bool {
    let ds = unsigned_digits(s);
    &&& ds.len() > 0
    &&& all_digits(ds)
    &&& digits_value(ds) <= u32::MAX
}

/// `s` without its leading `+`, if any.
pub open spec fn unsigned_digits(s: Seq<char>) -> Seq<char> {
    if s.len() > 0 && s[0] == '+' { s.drop_first() } else { s }
}

pub open spec fn all_digits(ds: Seq<char>) -> bool {
    forall|i: int| 0 <= i < ds.len() ==> is_digit(#[trigger] ds[i])
}

proof fn lemma_value_nonneg(ds: Seq<char>)
    requires
        forall|k: int| 0 <= k < ds.len() ==> is_digit(#[trigger] ds[k]),
    ensures
        digits_value(ds) >= 0,
    decreases ds.len(),
{
    if ds.len() > 0 {
        lemma_value_nonneg(ds.drop_last());
    }
}

/// Whether `s` would parse as a `u32`.
pub fn parses_as_u32(s: &str) -> (r: bool)
    ensures
        r == parses_u32(s@),
{
    let n = s.unicode_len();
    let start: usize = if n > 0 && s.get_char(0) == '+' { 1 } else { 0 };
    let digits = s.substring_char(start, n);
    assert(digits@ =~= unsigned_digits(s@));
    let m = digits.unicode_len();
    if m == 0 {
        return false;
    }
    let mut i: usize = 0;
    let mut acc: u64 = 0;
    let mut over = false;
    assert(digits@.take(0) =~= Seq::<char>::empty());
    while i < m
        invariant
            i <= m,
            m == digits@.len(),
            digits@ == unsigned_digits(s@),
            forall|k: int| 0 <= k < i ==> is_digit(#[trigger] digits@[k]),
            !over ==> acc == digits_value(digits@.take(i as int)) && acc <= u32::MAX,
            over ==> digits_value(digits@.take(i as int)) > u32::MAX,
        decreases m - i,
    {
        let c = digits.get_char(i);
        if !('0' <= c && c <= '9') {
            assert(!is_digit(digits@[i as int]));
            assert(!all_digits(digits@));
            return false;
        }
        proof {
            lemma_value_step(digits@, i as int);
        }
        if !over {
            let d = (c as u32 - '0' as u32) as u64;
            let next = acc * 10 + d;
            if next > 4294967295 {
                over = true;
            } else {
                acc = next;
            }
        }
        i = i + 1;
    }
    assert(digits@.take(m as int) =~= digits@);
    assert(all_digits(digits@));
    !over
}

proof fn lemma_value_step(ds: Seq<char>, i: int)
    requires
        0 <= i < ds.len(),
        forall|k: int| 0 <= k < i ==> is_digit(#[trigger] ds[k]),
        is_digit(ds[i]),
    ensures
        digits_value(ds.take(i + 1)) == digits_value(ds.take(i)) * 10 + (ds[i] as int - '0' as int),
        digits_value(ds.take(i)) >= 0,
{
    assert(ds.take(i + 1).drop_last() =~= ds.take(i));
    let pre = ds.take(i);
    assert(forall|k: int| 0 <= k < pre.len() ==> is_digit(#[trigger] pre[k]));
    lemma_value_nonneg(pre);
}

/// The ticket id taken from a ticket link: what follows `id=` up to the first `&`.
pub open spec fn link_id(s: Seq<char>, p: int) -> Seq<char> {
    let rest = s.subrange(p + 3, s.len() as int);
    match first_at(rest, "&"@, 0) {
        Some(q) => rest.take(q),
        None => rest,
    }
}

/// Checks a ticket id typed by the user, which may be a link to the ticket
/// page. A bare id is accepted when it parses as a `u32`, and left as it is.
/// From a link (one holding `https`) the id after the first `id=` and before
/// the next `&` is accepted when it has five or six characters and parses;
/// the input then becomes that id. Otherwise the link is cut just after
/// `id=` and refused. Empty input and links without `id=` are refused as they are.
pub fn check_input_ticket(ticket_id: &mut String) -> (r: bool)
    ensures
        ({
            let s = old(ticket_id)@;
            if s.len() == 0 {
                !r && final(ticket_id)@ == s
            } else if contains(s, "https"@) {
                match first_at(s, "id="@, 0) {
                    None => !r && final(ticket_id)@ == s,
                    Some(p) => {
                        let id = link_id(s, p);
                        if (id.len() == 5 || id.len() == 6) && parses_u32(id) {
                            r && final(ticket_id)@ == id
                        } else {
                            !r && final(ticket_id)@ == s.take(p + 3)
                        }
                    },
                }
            } else {
                r == parses_u32(s) && final(ticket_id)@ == s
            }
        }),
{
    proof {
        reveal_strlit("id=");
    }
    let n = ticket_id.unicode_len();
    if n == 0 {
        return false;
    }
    if text_contains(ticket_id.as_str(), "https") {
        match find_text(ticket_id.as_str(), "id=") {
            None => {
                return false;
            },
            Some(p) => {
                proof {
                    assert(p + 3 <= n) by {
                        lemma_first_at_bounds(ticket_id@, "id="@, 0);
                    }
                }
                let rest = ticket_id.substring_char(p + 3, n);
                let id: String = match find_text(rest, "&") {
                    Some(q) => {
                        proof {
                            lemma_first_at_bounds(rest@, "&"@, 0);
                        }
                        String::from_str(rest.substring_char(0, q))
                    },
                    None => String::from_str(rest),
                };
                let k = id.unicode_len();
                if (k == 5 || k == 6) && parses_as_u32(id.as_str()) {
                    *ticket_id = id;
                    return true;
                }
                let head = String::from_str(ticket_id.substring_char(0, p + 3));
                *ticket_id = head;
                return false;
            },
        }
    }
    parses_as_u32(ticket_id.as_str())
}

proof fn lemma_first_at_bounds(s: Seq<char>, pat: Seq<char>, from: int)
    ensures
        first_at(s, pat, from) matches Some(p) ==> from <= p && p + pat.len() <= s.len(),
    decreases s.len() + 1 - from,
{
    if !(from < 0 || from + pat.len() > s.len()) && !occurs_at(s, pat, from) {
        lemma_first_at_bounds(s, pat, from + 1);
    }
}

} // verus!
