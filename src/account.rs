use vstd::prelude::*;
use vstd::string::StringExecFns;
use crate::text::{contains, text_contains};

verus! {

/// Unicode white space, as `char::is_whitespace` and `str::trim` see it.
pub open spec fn is_space(c: char) -> bool {
    ('\u{9}' <= c && c <= '\u{d}') || c == ' ' || c == '\u{85}' || c == '\u{a0}' || c == '\u{1680}'
        || ('\u{2000}' <= c && c <= '\u{200a}') || c == '\u{2028}' || c == '\u{2029}' || c == '\u{202f}'
        || c == '\u{205f}' || c == '\u{3000}'
}

fn space(c: char) -> (r: bool)
    ensures
        r == is_space(c),
{
    ('\u{9}' <= c && c <= '\u{d}') || c == ' ' || c == '\u{85}' || c == '\u{a0}' || c == '\u{1680}'
        || ('\u{2000}' <= c && c <= '\u{200a}') || c == '\u{2028}' || c == '\u{2029}' || c == '\u{202f}'
        || c == '\u{205f}' || c == '\u{3000}'
}

pub open spec fn trim_start(s: Seq<char>) -> Seq<char>
    decreases s.len(),
{
    if s.len() > 0 && is_space(s[0]) { trim_start(s.drop_first()) } else { s }
}

pub open spec fn trim_end(s: Seq<char>) -> Seq<char>
    decreases s.len(),
{
    if s.len() > 0 && is_space(s.last()) { trim_end(s.drop_last()) } else { s }
}

/// `s` without leading and trailing white space.
pub open spec fn trim(s: Seq<char>) -> Seq<char> {
    trim_end(trim_start(s))
}

/// `s` with every occurrence of the non-empty `pat` removed, scanning left to right.
pub open spec fn remove_all(s: Seq<char>, pat: Seq<char>) -> Seq<char>
    decreases s.len(),
{
    if s.len() == 0 {
        s
    } else if pat.len() > 0 && pat.len() <= s.len() && s.take(pat.len() as int) == pat {
        remove_all(s.skip(pat.len() as int), pat)
    } else {
        seq![s[0]] + remove_all(s.drop_first(), pat)
    }
}

/// End of the `;`-separated field that starts at `a`.
pub open spec fn field_end(s: Seq<char>, a: int) -> int
    decreases s.len() - a,
{
    if a < 0 || a >= s.len() {
        s.len() as int
    } else if s[a] == ';' {
        a
    } else {
        field_end(s, a + 1)
    }
}

/// The first `;`-separated field, from the one starting at `a` on, that holds `pat`.
pub open spec fn field_with(s: Seq<char>, a: int, pat: Seq<char>) -> Option<Seq<char>>
    decreases s.len() - a,
{
    let b = field_end(s, a);
    if 0 <= a <= b && contains(s.subrange(a, b), pat) {
        Some(s.subrange(a, b))
    } else if a < 0 || b >= s.len() || b < a {
        None
    } else {
        field_with(s, b + 1, pat)
    }
}

/// The cookie name that carries the CSRF token.
pub open spec fn csrf_key() -> Seq<char> {
    "bili_jct="@
}

/// The CSRF token of a cookie string: the first field holding `bili_jct=`,
/// trimmed and with that key removed; empty when no field holds it.
pub open spec fn csrf_of(cookie: Seq<char>) -> Seq<char> {
    match field_with(cookie, 0, csrf_key()) {
        Some(f) => remove_all(trim(f), csrf_key()),
        None => Seq::empty(),
    }
}

proof fn lemma_field_end_bounds(s: Seq<char>, a: int)
    requires
        0 <= a <= s.len(),
    ensures
        a <= field_end(s, a) <= s.len(),
    decreases s.len() - a,
{
    if a < s.len() && s[a] != ';' {
        lemma_field_end_bounds(s, a + 1);
    }
}

fn trimmed(s: &str) -> (r: String)
    ensures
        r@ == trim(s@),
{
    let n = s.unicode_len();
    let mut i: usize = 0;
    assert(s@.subrange(0, n as int) =~= s@);
    while i < n && space(s.get_char(i))
        invariant
            n == s@.len(),
            i <= n,
            trim_start(s@) == trim_start(s@.subrange(i as int, n as int)),
        decreases n - i,
    {
        assert(s@.subrange(i as int, n as int).drop_first() =~= s@.subrange(i + 1, n as int));
        i = i + 1;
    }
    assert(trim_start(s@.subrange(i as int, n as int)) == s@.subrange(i as int, n as int));
    let mut j: usize = n;
    while j > i && space(s.get_char(j - 1))
        invariant
            n == s@.len(),
            i <= j <= n,
            trim(s@) == trim_end(s@.subrange(i as int, j as int)),
        decreases j,
    {
        assert(s@.subrange(i as int, j as int).drop_last() =~= s@.subrange(i as int, j - 1));
        j = j - 1;
    }
    String::from_str(s.substring_char(i, j))
}

fn without_key(t: &str) -> (r: String)
    ensures
        r@ == remove_all(t@, csrf_key()),
{
    let key = "bili_jct=";
    proof {
        reveal_strlit("bili_jct=");
    }
    let m: usize = 9;
    let n = t.unicode_len();
    let mut out = String::new();
    let mut i: usize = 0;
    assert(t@.skip(0) =~= t@);
    while i < n
        invariant
            m == 9,
            n == t@.len(),
            i <= n,
            key@ == csrf_key(),
            m == key@.len(),
            out@ + remove_all(t@.skip(i as int), csrf_key()) == remove_all(t@, csrf_key()),
        decreases n - i,
    {
        let ghost rest = t@.skip(i as int);
        let hit = m <= n - i && text_contains(t.substring_char(i, i + m), key);
        if hit {
            assert(t@.subrange(i as int, i + m).subrange(0, m as int) =~= key@) by {
                let p = choose|p: int| #[trigger] crate::text::occurs_at(t@.subrange(i as int, i + m), key@, p);
                assert(p == 0);
            }
            assert(rest.take(m as int) =~= key@);
            assert(rest.skip(m as int) =~= t@.skip(i + m));
            i = i + m;
        } else {
            assert(!(m <= rest.len() && rest.take(m as int) == key@)) by {
                if m <= n - i && rest.take(m as int) == key@ {
                    assert(t@.subrange(i as int, i + m) =~= rest.take(m as int));
                    assert(t@.subrange(i as int, i + m).subrange(0, m as int) =~= key@);
                    assert(crate::text::occurs_at(t@.subrange(i as int, i + m), key@, 0));
                }
            }
            let ghost before = out@;
            out.append(t.substring_char(i, i + 1));
            assert(rest.drop_first() =~= t@.skip(i + 1));
            assert(out@ + remove_all(t@.skip(i + 1), csrf_key()) =~= before + remove_all(rest, csrf_key()));
            i = i + 1;
        }
    }
    assert(t@.skip(n as int) =~= Seq::<char>::empty());
    assert(out@ + Seq::<char>::empty() =~= out@);
    out
}

/// The CSRF token carried by a cookie string.
pub fn extract_csrf(cookie: &str) -> (r: String)
    ensures
        r@ == csrf_of(cookie@),
{
    let key = "bili_jct=";
    let n = cookie.unicode_len();
    let mut a: usize = 0;
    loop
        invariant
            n == cookie@.len(),
            a <= n,
            key@ == csrf_key(),
            field_with(cookie@, 0, csrf_key()) == field_with(cookie@, a as int, csrf_key()),
        decreases n - a,
    {
        let mut b: usize = a;
        while b < n && cookie.get_char(b) != ';'
            invariant
                n == cookie@.len(),
                a <= b <= n,
                field_end(cookie@, a as int) == field_end(cookie@, b as int),
            decreases n - b,
        {
            b = b + 1;
        }
        let field = cookie.substring_char(a, b);
        if text_contains(field, key) {
            let t = trimmed(field);
            return without_key(t.as_str());
        }
        if b >= n {
            return String::new();
        }
        a = b + 1;
    }
}

} // verus!
