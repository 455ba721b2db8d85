//! Plain-text helpers for input lines: trimming surrounding whitespace and
//! measuring the leading command token.

use vstd::prelude::*;
use vstd::string::StrSliceExecFns;

verus! {

/// Whether a character has the Unicode `White_Space` property, as
/// `char::is_whitespace` reports it: a function of the character alone.
pub uninterp spec fn is_space_char(c: char) -> bool;

/// Relies on `char::is_whitespace`: true exactly for characters with the
/// Unicode `White_Space` property, a function of the character alone.
#[verifier::external_body]
fn is_space(c: char) -> (b: bool)
    ensures
        b == is_space_char(c),
{
    c.is_whitespace()
}

/// Number of leading whitespace characters of `s`.
pub open spec fn leading_spaces(s: Seq<char>) -> nat
    decreases s.len(),
{
    if s.len() == 0 || !is_space_char(s[0]) {
        0
    } else {
        (1 + leading_spaces(s.skip(1))) as nat
    }
}

/// Number of trailing whitespace characters of `s`.
pub open spec fn trailing_spaces(s: Seq<char>) -> nat
    decreases s.len(),
{
    if s.len() == 0 || !is_space_char(s[s.len() - 1]) {
        0
    } else {
        (1 + trailing_spaces(s.take(s.len() - 1))) as nat
    }
}

/// `s` without its leading and trailing whitespace, as `str::trim` yields it.
pub open spec fn trimmed(s: Seq<char>) -> Seq<char> {
    if leading_spaces(s) == s.len() {
        Seq::empty()
    } else {
        s.subrange(leading_spaces(s) as int, s.len() - trailing_spaces(s))
    }
}

/// A scan that stops at the first non-whitespace character has counted
/// exactly the leading whitespace.
proof fn lemma_leading_spaces_exact(s: Seq<char>, i: int)
    requires
        0 <= i <= s.len(),
        forall|j: int| 0 <= j < i ==> is_space_char(s[j]),
        i < s.len() ==> !is_space_char(s[i]),
    ensures
        leading_spaces(s) == i,
    decreases s.len(),
{
    if i == 0 {
    } else {
        assert(is_space_char(s[0]));
        assert forall|j: int| 0 <= j < i - 1 implies is_space_char(s.skip(1)[j]) by {
            assert(s.skip(1)[j] == s[j + 1]);
        }
        assert(i - 1 < s.skip(1).len() ==> !is_space_char(s.skip(1)[i - 1]));
        lemma_leading_spaces_exact(s.skip(1), i - 1);
    }
}

/// A scan backwards that stops at the last non-whitespace character has
/// counted exactly the trailing whitespace.
proof fn lemma_trailing_spaces_exact(s: Seq<char>, k: int)
    requires
        0 <= k <= s.len(),
        forall|j: int| k <= j < s.len() ==> is_space_char(s[j]),
        k > 0 ==> !is_space_char(s[k - 1]),
    ensures
        trailing_spaces(s) == s.len() - k,
    decreases s.len(),
{
    if k == s.len() {
    } else {
        assert(is_space_char(s[s.len() - 1]));
        let t = s.take(s.len() - 1);
        assert forall|j: int| k <= j < t.len() implies is_space_char(t[j]) by {
            assert(t[j] == s[j]);
        }
        assert(k > 0 ==> t[k - 1] == s[k - 1]);
        lemma_trailing_spaces_exact(t, k);
    }
}

/// The line without leading and trailing whitespace, as `str::trim` yields it.
pub fn trim(s: &str) -> (r: &str)
    ensures
        r@ == trimmed(s@),
{
    let len = s.unicode_len();
    let mut i: usize = 0;
    loop
        invariant_except_break
            len == s@.len(),
            0 <= i <= len,
            forall|j: int| 0 <= j < i ==> is_space_char(s@[j]),
        ensures
            len == s@.len(),
            0 <= i <= len,
            forall|j: int| 0 <= j < i ==> is_space_char(s@[j]),
            i < len ==> !is_space_char(s@[i as int]),
        decreases len - i,
    {
        if i >= len {
            break;
        }
        if !is_space(s.get_char(i)) {
            break;
        }
        i = i + 1;
    }
    proof {
        lemma_leading_spaces_exact(s@, i as int);
    }
    if i == len {
        let r = s.substring_char(len, len);
        proof {
            assert(r@ =~= trimmed(s@));
        }
        return r;
    }
    let mut k: usize = len;
    loop
        invariant_except_break
            len == s@.len(),
            i < len,
            !is_space_char(s@[i as int]),
            i < k <= len,
            forall|j: int| k <= j < len ==> is_space_char(s@[j]),
        ensures
            len == s@.len(),
            i < k <= len,
            forall|j: int| k <= j < len ==> is_space_char(s@[j]),
            !is_space_char(s@[k - 1]),
        decreases k,
    {
        if !is_space(s.get_char(k - 1)) {
            break;
        }
        assert(k - 1 > i) by {
            assert(!is_space_char(s@[i as int]));
        }
        k = k - 1;
    }
    proof {
        lemma_trailing_spaces_exact(s@, k as int);
    }
    let r = s.substring_char(i, k);
    proof {
        assert(r@ =~= trimmed(s@));
    }
    r
}

/// Length of the leading token of `s`: everything up to (not including) the
/// first space character.
pub open spec fn token_len(s: Seq<char>) -> nat
    decreases s.len(),
{
    if s.len() == 0 || s[0] == ' ' {
        0
    } else {
        (1 + token_len(s.skip(1))) as nat
    }
}

/// The leading token is never longer than the text it is read from.
pub proof fn lemma_token_len_le(s: Seq<char>)
    ensures
        token_len(s) <= s.len(),
    decreases s.len(),
{
    if !(s.len() == 0 || s[0] == ' ') {
        lemma_token_len_le(s.skip(1));
    }
}

/// A scan that stops at the first space has measured exactly the leading
/// token.
proof fn lemma_token_len_exact(s: Seq<char>, i: int)
    requires
        0 <= i <= s.len(),
        forall|j: int| 0 <= j < i ==> s[j] != ' ',
        i < s.len() ==> s[i] == ' ',
    ensures
        token_len(s) == i,
    decreases s.len(),
{
    if i == 0 {
    } else {
        assert forall|j: int| 0 <= j < i - 1 implies s.skip(1)[j] != ' ' by {
            assert(s.skip(1)[j] == s[j + 1]);
        }
        assert(i - 1 < s.skip(1).len() ==> s.skip(1)[i - 1] == s[i]);
        lemma_token_len_exact(s.skip(1), i - 1);
    }
}

/// Index just past the leading token of `s`: the position of the first space,
/// or the length of `s` if it has none.
pub fn scan_token(s: &str) -> (n: usize)
    ensures
        n == token_len(s@),
        n <= s@.len(),
{
    let len = s.unicode_len();
    let mut i: usize = 0;
    loop
        invariant_except_break
            len == s@.len(),
            0 <= i <= len,
            forall|j: int| 0 <= j < i ==> s@[j] != ' ',
        ensures
            len == s@.len(),
            0 <= i <= len,
            forall|j: int| 0 <= j < i ==> s@[j] != ' ',
            i < len ==> s@[i as int] == ' ',
        decreases len - i,
    {
        if i >= len {
            break;
        }
        if s.get_char(i) == ' ' {
            break;
        }
        i = i + 1;
    }
    proof {
        lemma_token_len_exact(s@, i as int);
    }
    i
}

} // verus!
