//! Character-level text helpers: prefix test, substring search, and
//! whitespace tokenization, all specified over `Seq<char>` views.

use vstd::prelude::*;
use vstd::string::StrSliceExecFns;

verus! {

/// The sequence of characters that `str::to_lowercase` produces for `s`.
pub uninterp spec fn lower_of(s: Seq<char>) -> Seq<char>;

/// Whether `char::is_whitespace` holds of `c`.
pub uninterp spec fn is_space(c: char) -> bool;

/// The characters of the `Debug` rendering of the string `s` (the string
/// between quotes, with special characters escaped).
pub uninterp spec fn quoted_of(s: Seq<char>) -> Seq<char>;

/// Relies on `str::to_lowercase`: the result depends on the characters alone.
#[verifier::external_body]
pub(crate) fn to_lower(s: &str) -> (r: String)
    ensures
        r@ == lower_of(s@),
{
    s.to_lowercase()
}

/// Relies on `char::is_whitespace`: a property of the character alone.
#[verifier::external_body]
fn space_char(c: char) -> (r: bool)
    ensures
        r == is_space(c),
{
    c.is_whitespace()
}

/// Relies on the `Debug` rendering of `str` (quotes around the text, special
/// characters escaped), which depends on the characters alone.
#[verifier::external_body]
pub(crate) fn quote_debug(s: &str) -> (r: String)
    ensures
        r@ == quoted_of(s@),
{
    format!("{:?}", s)
}

/// Relies on `String::push`: appends the given character to the end.
#[verifier::external_body]
pub(crate) fn push_char(s: &mut String, c: char)
    ensures
        final(s)@ == old(s)@.push(c),
{
    s.push(c)
}

/// Whether `a` and `b` hold the same characters.
pub fn str_eq(a: &str, b: &str) -> (r: bool)
    ensures
        r == (a@ == b@),
{
    let n = a.unicode_len();
    let m = b.unicode_len();
    if n != m {
        return false;
    }
    let mut i: usize = 0;
    while i < n
        invariant
            n == a@.len(),
            n == b@.len(),
            i <= n,
            forall|j: int| 0 <= j < i ==> a@[j] == b@[j],
        decreases n - i,
    {
        if a.get_char(i) != b.get_char(i) {
            return false;
        }
        i += 1;
    }
    assert(a@ =~= b@);
    true
}

/// `p` stands at the front of `s`.
pub open spec fn has_prefix(s: Seq<char>, p: Seq<char>) -> bool {
    p.len() <= s.len() && s.subrange(0, p.len() as int) == p
}

/// `p` stands at position `i` of `s`.
pub open spec fn matches_at(s: Seq<char>, p: Seq<char>, i: int) -> bool {
    &&& 0 <= i
    &&& i + p.len() <= s.len()
    &&& forall|j: int| 0 <= j < p.len() ==> s[i + j] == p[j]
}

/// `p` occurs somewhere inside `s`.
pub open spec fn has_substring(s: Seq<char>, p: Seq<char>) -> bool {
    exists|i: int| matches_at(s, p, i)
}

/// Whether `s` starts with `p`, compared character by character.
pub fn str_has_prefix(s: &str, p: &str) -> (r: bool)
    ensures
        r == has_prefix(s@, p@),
{
    let n = s.unicode_len();
    let m = p.unicode_len();
    if m > n {
        return false;
    }
    let mut i: usize = 0;
    while i < m
        invariant
            m <= n,
            n == s@.len(),
            m == p@.len(),
            i <= m,
            forall|j: int| 0 <= j < i ==> s@[j] == p@[j],
        decreases m - i,
    {
        if s.get_char(i) != p.get_char(i) {
            assert(!has_prefix(s@, p@)) by {
                if has_prefix(s@, p@) {
                    assert(s@.subrange(0, p@.len() as int)[i as int] == p@[i as int]);
                }
            }
            return false;
        }
        i += 1;
    }
    assert(s@.subrange(0, p@.len() as int) =~= p@);
    true
}

/// Whether `p` stands at position `start` of `s`.
fn str_matches_at(s: &str, p: &str, start: usize) -> (r: bool)
    requires
        start + p@.len() <= s@.len(),
    ensures
        r == matches_at(s@, p@, start as int),
{
    let n = s.unicode_len();
    let m = p.unicode_len();
    let mut j: usize = 0;
    while j < m
        invariant
            n == s@.len(),
            m == p@.len(),
            start + m <= n,
            j <= m,
            forall|t: int| 0 <= t < j ==> s@[start + t] == p@[t],
        decreases m - j,
    {
        if s.get_char(start + j) != p.get_char(j) {
            return false;
        }
        j += 1;
    }
    true
}

/// Whether `p` occurs anywhere inside `s`, by a character-level scan.
pub fn str_contains(s: &str, p: &str) -> (r: bool)
    ensures
        r == has_substring(s@, p@),
{
    let n = s.unicode_len();
    let m = p.unicode_len();
    if m > n {
        assert(!has_substring(s@, p@)) by {
            if has_substring(s@, p@) {
                let i = choose|i: int| matches_at(s@, p@, i);
            }
        }
        return false;
    }
    if m == 0 {
        assert(matches_at(s@, p@, 0));
        return true;
    }
    let mut start: usize = 0;
    while start <= n - m
        invariant
            n == s@.len(),
            m == p@.len(),
            0 < m <= n,
            start <= n - m + 1,
            forall|k: int| 0 <= k < start ==> !matches_at(s@, p@, k),
        decreases n - start,
    {
        if str_matches_at(s, p, start) {
            assert(has_substring(s@, p@));
            return true;
        }
        start += 1;
    }
    assert(!has_substring(s@, p@)) by {
        if has_substring(s@, p@) {
            let i = choose|i: int| matches_at(s@, p@, i);
            assert(!matches_at(s@, p@, i));
        }
    }
    false
}

/// The tokens of `s` once the scan has reached position `i` with the pending
/// token `cur` and the finished tokens `acc`.
pub open spec fn split_acc(s: Seq<char>, i: int, cur: Seq<char>, acc: Seq<Seq<char>>) -> Seq<
    Seq<char>,
>
    decreases s.len() - i,
{
    if i < 0 || i >= s.len() {
        if cur.len() == 0 {
            acc
        } else {
            acc.push(cur)
        }
    } else if is_space(s[i]) {
        if cur.len() == 0 {
            split_acc(s, i + 1, cur, acc)
        } else {
            split_acc(s, i + 1, Seq::empty(), acc.push(cur))
        }
    } else {
        split_acc(s, i + 1, cur.push(s[i]), acc)
    }
}

/// The whitespace-separated tokens of `s`, in order.
pub open spec fn tokens_of(s: Seq<char>) -> Seq<Seq<char>> {
    split_acc(s, 0, Seq::empty(), Seq::empty())
}

/// Splits `s` at whitespace characters into its tokens.
pub fn split_whitespace_tokens(s: &str) -> (r: Vec<String>)
    ensures
        r.deep_view() == tokens_of(s@),
{
    let n = s.unicode_len();
    let mut acc: Vec<String> = Vec::new();
    let mut cur: String = String::new();
    let mut i: usize = 0;
    proof {
        assert(acc.deep_view() =~= Seq::<Seq<char>>::empty());
    }
    while i < n
        invariant
            n == s@.len(),
            i <= n,
            tokens_of(s@) == split_acc(s@, i as int, cur@, acc.deep_view()),
        decreases n - i,
    {
        let ghost prev_cur = cur@;
        let ghost prev_acc = acc.deep_view();
        let c = s.get_char(i);
        if space_char(c) {
            if !cur.as_str().is_empty() {
                acc.push(cur);
                cur = String::new();
                proof {
                    assert(acc.deep_view() =~= prev_acc.push(prev_cur));
                }
            }
        } else {
            push_char(&mut cur, c);
            proof {
                assert(acc.deep_view() =~= prev_acc);
            }
        }
        i += 1;
    }
    if !cur.as_str().is_empty() {
        let ghost prev_cur = cur@;
        let ghost prev_acc = acc.deep_view();
        acc.push(cur);
        proof {
            assert(acc.deep_view() =~= prev_acc.push(prev_cur));
        }
    }
    acc
}

} // verus!
