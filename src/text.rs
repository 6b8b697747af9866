use vstd::prelude::*;

verus! {

/// What `str::to_lowercase` makes of a string.
pub uninterp spec fn lower_of(s: Seq<char>) -> Seq<char>;

/// Relies on `str::to_lowercase`: the result depends on the characters alone.
#[verifier::external_body]
pub(crate) fn lowercase(s: &str) -> (r: String)
    ensures
        r@ == lower_of(s@),
{
    s.to_lowercase()
}

/// `needle` stands in `hay` from position `i` on.
pub open spec fn occurs_at(hay: Seq<char>, needle: Seq<char>, i: int) -> bool {
    0 <= i && i + needle.len() <= hay.len() && hay.subrange(i, i + needle.len()) == needle
}

/// `needle` is a substring of `hay`.
pub open spec fn contains(hay: Seq<char>, needle: Seq<char>) -> bool {
    exists|i: int| occurs_at(hay, needle, i)
}

/// Whether `needle` is a substring of `hay`.
pub fn text_contains(hay: &str, needle: &str) -> (r: bool)
    ensures
        r == contains(hay@, needle@),
{
    let n = hay.unicode_len();
    let m = needle.unicode_len();
    if m > n {
        return false;
    }
    let mut i: usize = 0;
    while i <= n - m
        invariant
            n == hay@.len(),
            m == needle@.len(),
            m <= n,
            i <= n - m + 1,
            forall|k: int| 0 <= k < i ==> !occurs_at(hay@, needle@, k),
        decreases n - m + 1 - i,
    {
        let mut j: usize = 0;
        let mut same = true;
        while j < m && same
            invariant
                n == hay@.len(),
                m == needle@.len(),
                i + m <= n,
                j <= m,
                same == (forall|t: int| 0 <= t < j ==> hay@[i + t] == needle@[t]),
            decreases m - j,
        {
            if hay.get_char(i + j) != needle.get_char(j) {
                same = false;
            }
            j = j + 1;
        }
        if same {
            assert(hay@.subrange(i as int, i + m) =~= needle@);
            assert(occurs_at(hay@, needle@, i as int));
            return true;
        }
        assert(!occurs_at(hay@, needle@, i as int)) by {
            let t = choose|t: int| 0 <= t < j && hay@[i + t] != needle@[t];
            assert(hay@.subrange(i as int, i + m)[t] != needle@[t]);
        }
        i = i + 1;
    }
    false
}


/// Position of the first occurrence of `pat` in `s` at or after `from`.
pub open spec fn first_at(s: Seq<char>, pat: Seq<char>, from: int) -> Option<int>
    decreases s.len() + 1 - from,
{
    if from < 0 || from + pat.len() > s.len() {
        None
    } else if occurs_at(s, pat, from) {
        Some(from)
    } else {
        first_at(s, pat, from + 1)
    }
}

/// Position of the first occurrence of `pat` in `hay`.
pub fn find_text(hay: &str, pat: &str) -> (r: Option<usize>)
    ensures
        r matches Some(p) ==> first_at(hay@, pat@, 0) == Some(p as int),
        r is None ==> first_at(hay@, pat@, 0) is None,
{
    let n = hay.unicode_len();
    let m = pat.unicode_len();
    if m > n {
        return None;
    }
    let mut i: usize = 0;
    while i <= n - m
        invariant
            n == hay@.len(),
            m == pat@.len(),
            m <= n,
            i <= n - m + 1,
            first_at(hay@, pat@, 0) == first_at(hay@, pat@, i as int),
        decreases n - m + 1 - i,
    {
        if text_contains(hay.substring_char(i, i + m), pat) {
            assert(occurs_at(hay@, pat@, i as int)) by {
                let sub = hay@.subrange(i as int, i + m);
                let q = choose|q: int| #[trigger] occurs_at(sub, pat@, q);
                assert(q == 0);
                assert(sub.subrange(0, m as int) =~= sub);
            }
            return Some(i);
        }
        assert(!occurs_at(hay@, pat@, i as int)) by {
            if occurs_at(hay@, pat@, i as int) {
                let sub = hay@.subrange(i as int, i + m);
                assert(sub.subrange(0, m as int) =~= sub);
                assert(occurs_at(sub, pat@, 0));
            }
        }
        if i == n - m {
            assert(first_at(hay@, pat@, i + 1) is None);
            return None;
        }
        i = i + 1;
    }
    None
}

} // verus!
