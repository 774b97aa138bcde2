//! Character classes and string helpers shared by the rules.
use vstd::prelude::*;
use vstd::string::*;

verus! {

broadcast use vstd::string::group_string_axioms;

/// `c` is a lowercase ASCII letter, an ASCII digit or a hyphen.
pub open spec fn is_slug_char(c: char) -> bool {
    ('a' <= c && c <= 'z') || ('0' <= c && c <= '9') || c == '-'
}

/// `c` is a lowercase hexadecimal digit.
pub open spec fn is_lower_hex(c: char) -> bool {
    ('a' <= c && c <= 'f') || ('0' <= c && c <= '9')
}

/// The characters of the Unicode property `White_Space`.
pub open spec fn is_white_space(c: char) -> bool {
    ||| ('\u{9}' <= c && c <= '\u{d}')
    ||| c == ' '
    ||| c == '\u{85}'
    ||| c == '\u{a0}'
    ||| c == '\u{1680}'
    ||| ('\u{2000}' <= c && c <= '\u{200a}')
    ||| c == '\u{2028}'
    ||| c == '\u{2029}'
    ||| c == '\u{202f}'
    ||| c == '\u{205f}'
    ||| c == '\u{3000}'
}

/// `s` without its leading white space.
pub open spec fn trim_start_ws(s: Seq<char>) -> Seq<char>
    decreases s.len(),
{
    if s.len() > 0 && is_white_space(s[0]) {
        trim_start_ws(s.drop_first())
    } else {
        s
    }
}

/// `s` without its trailing white space.
pub open spec fn trim_end_ws(s: Seq<char>) -> Seq<char>
    decreases s.len(),
{
    if s.len() > 0 && is_white_space(s.last()) {
        trim_end_ws(s.drop_last())
    } else {
        s
    }
}

/// `s` without leading and trailing white space.
pub open spec fn trim_ws(s: Seq<char>) -> Seq<char> {
    trim_end_ws(trim_start_ws(s))
}

/// `s` without its leading hyphens.
pub open spec fn trim_start_hyphens(s: Seq<char>) -> Seq<char>
    decreases s.len(),
{
    if s.len() > 0 && s[0] == '-' {
        trim_start_hyphens(s.drop_first())
    } else {
        s
    }
}

/// `s` without its trailing hyphens.
pub open spec fn trim_end_hyphens(s: Seq<char>) -> Seq<char>
    decreases s.len(),
{
    if s.len() > 0 && s.last() == '-' {
        trim_end_hyphens(s.drop_last())
    } else {
        s
    }
}

/// `s` without leading and trailing hyphens.
pub open spec fn trim_hyphens(s: Seq<char>) -> Seq<char> {
    trim_end_hyphens(trim_start_hyphens(s))
}

/// `suffix` ends `s`.
pub open spec fn has_suffix(s: Seq<char>, suffix: Seq<char>) -> bool {
    suffix.len() <= s.len() && s.subrange(s.len() - suffix.len(), s.len() as int) == suffix
}

/// `prefix` begins `s`.
pub open spec fn has_prefix(s: Seq<char>, prefix: Seq<char>) -> bool {
    prefix.len() <= s.len() && s.subrange(0, prefix.len() as int) == prefix
}

/// What `str::to_lowercase` returns for a string: the lowercase mapping of
/// the Unicode `Lowercase` property, applied to the whole string.
pub uninterp spec fn lowercase(s: Seq<char>) -> Seq<char>;

/// Calls `str::to_lowercase`; its result is named [`lowercase`] of the input.
#[verifier::external_body]
pub(crate) fn to_lowercase(s: &str) -> (r: String)
    ensures
        r@ == lowercase(s@),
{
    s.to_lowercase()
}

/// Calls `str::trim`, which removes leading and trailing characters of the
/// Unicode `White_Space` property; the result is the string between them.
#[verifier::external_body]
pub(crate) fn trim_white_space(s: &str) -> (r: &str)
    ensures
        r@ == trim_ws(s@),
{
    s.trim()
}

/// Calls `String::push`, which appends one character.
#[verifier::external_body]
pub(crate) fn push_char(s: &mut String, c: char)
    ensures
        final(s)@ == old(s)@.push(c),
{
    s.push(c)
}

/// Executable form of [`is_slug_char`].
pub fn slug_char(c: char) -> (r: bool)
    ensures
        r == is_slug_char(c),
{
    ('a' <= c && c <= 'z') || ('0' <= c && c <= '9') || c == '-'
}

/// Whether two strings hold the same characters.
pub fn str_eq(a: &str, b: &str) -> (r: bool)
    ensures
        r == (a@ == b@),
{
    let n = a.unicode_len();
    let m = b.unicode_len();
    if n != m {
        return false;
    }
    let mut i: usize = 0;
    while i < n
        invariant
            n == a@.len(),
            m == b@.len(),
            n == m,
            i <= n,
            forall|k: int| 0 <= k < i ==> a@[k] == b@[k],
        decreases n - i,
    {
        if a.get_char(i) != b.get_char(i) {
            return false;
        }
        i = i + 1;
    }
    assert(a@ =~= b@);
    true
}

/// Whether `s` ends with `suffix`.
pub fn ends_with(s: &str, suffix: &str) -> (r: bool)
    ensures
        r == has_suffix(s@, suffix@),
{
    let n = s.unicode_len();
    let m = suffix.unicode_len();
    if m > n {
        return false;
    }
    let tail = s.substring_char(n - m, n);
    str_eq(tail, suffix)
}

/// Whether `s` begins with `prefix`.
pub fn starts_with(s: &str, prefix: &str) -> (r: bool)
    ensures
        r == has_prefix(s@, prefix@),
{
    let n = s.unicode_len();
    let m = prefix.unicode_len();
    if m > n {
        return false;
    }
    let head = s.substring_char(0, m);
    str_eq(head, prefix)
}

/// Whether every character of `s` is a slug character.
pub fn all_slug_chars(s: &str) -> (r: bool)
    ensures
        r == (forall|i: int| 0 <= i < s@.len() ==> is_slug_char(#[trigger] s@[i])),
{
    let n = s.unicode_len();
    let mut i: usize = 0;
    while i < n
        invariant
            n == s@.len(),
            i <= n,
            forall|k: int| 0 <= k < i ==> is_slug_char(#[trigger] s@[k]),
        decreases n - i,
    {
        if !slug_char(s.get_char(i)) {
            return false;
        }
        i = i + 1;
    }
    true
}

/// The first `i` characters of `s` are all hyphens.
spec fn lead_hyphens_ok(s: Seq<char>, i: int) -> bool {
    forall|k: int| 0 <= k < i ==> s[k] == '-'
}

proof fn lemma_trim_start_hyphens_skip(s: Seq<char>, i: int)
    requires
        0 <= i <= s.len(),
        lead_hyphens_ok(s, i),
    ensures
        trim_start_hyphens(s) == trim_start_hyphens(s.subrange(i, s.len() as int)),
    decreases i,
{
    if i > 0 {
        assert(s.drop_first() =~= s.subrange(1, s.len() as int));
        let t = s.drop_first();
        assert(lead_hyphens_ok(t, i - 1)) by {
            assert forall|k: int| 0 <= k < i - 1 implies t[k] == '-' by {
                assert(t[k] == s[k + 1]);
            }
        }
        lemma_trim_start_hyphens_skip(t, i - 1);
        assert(t.subrange(i - 1, t.len() as int) =~= s.subrange(i, s.len() as int));
    } else {
        assert(s.subrange(0, s.len() as int) =~= s);
    }
}

proof fn lemma_trim_end_hyphens_skip(s: Seq<char>, j: int)
    requires
        0 <= j <= s.len(),
        forall|k: int| j <= k < s.len() ==> s[k] == '-',
    ensures
        trim_end_hyphens(s) == trim_end_hyphens(s.subrange(0, j)),
    decreases s.len() - j,
{
    if j < s.len() {
        let t = s.drop_last();
        assert(t =~= s.subrange(0, s.len() - 1));
        lemma_trim_end_hyphens_skip(t, j);
        assert(t.subrange(0, j) =~= s.subrange(0, j));
    } else {
        assert(s.subrange(0, j) =~= s);
    }
}

/// `s` without leading and trailing hyphens.
pub fn trim_hyphen_ends(s: &str) -> (r: String)
    ensures
        r@ == trim_hyphens(s@),
{
    let n = s.unicode_len();
    let mut i: usize = 0;
    while i < n && s.get_char(i) == '-'
        invariant
            n == s@.len(),
            i <= n,
            lead_hyphens_ok(s@, i as int),
        decreases n - i,
    {
        i = i + 1;
    }
    proof {
        lemma_trim_start_hyphens_skip(s@, i as int);
    }
    let ghost rest = s@.subrange(i as int, n as int);
    assert(trim_start_hyphens(rest) == rest);
    let mut j: usize = n;
    while j > i && s.get_char(j - 1) == '-'
        invariant
            n == s@.len(),
            i <= j <= n,
            rest == s@.subrange(i as int, n as int),
            forall|k: int| j <= k < n ==> s@[k] == '-',
        decreases j,
    {
        j = j - 1;
    }
    proof {
        let r = s@.subrange(i as int, j as int);
        assert forall|k: int| (j - i) <= k < rest.len() implies rest[k] == '-' by {
            assert(rest[k] == s@[k + i]);
        }
        lemma_trim_end_hyphens_skip(rest, j - i);
        assert(rest.subrange(0, j - i) =~= r);
        assert(trim_end_hyphens(r) == r);
    }
    s.substring_char(i, j).to_string()
}

} // verus!
