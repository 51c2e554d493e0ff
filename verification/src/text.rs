//! Text handling used by request validation: blank checks, trimming, case
//! folding, comparison and message assembly.

use vstd::prelude::*;
use vstd::string::*;

verus! {

broadcast use vstd::string::group_string_axioms;

/// The Unicode `White_Space` property of a character, the notion of white space
/// that `str::trim` and `char::is_whitespace` use: U+0009 to U+000D, U+0020,
/// U+0085, U+00A0, U+1680, U+2000 to U+200A, U+2028, U+2029, U+202F, U+205F
/// and U+3000.
pub open spec fn unicode_white_space(c: char) -> bool {
    let u = c as u32;
    ||| 0x9 <= u <= 0xd
    ||| u == 0x20
    ||| u == 0x85
    ||| u == 0xa0
    ||| u == 0x1680
    ||| 0x2000 <= u <= 0x200a
    ||| u == 0x2028
    ||| u == 0x2029
    ||| u == 0x202f
    ||| u == 0x205f
    ||| u == 0x3000
}

/// The full Unicode lower-case mapping of a string, as `str::to_lowercase` computes it.
pub uninterp spec fn unicode_lowercase(s: Seq<char>) -> Seq<char>;

/// The full Unicode upper-case mapping of a string, as `str::to_uppercase` computes it.
pub uninterp spec fn unicode_uppercase(s: Seq<char>) -> Seq<char>;

/// Number of white-space characters at the start of `s`.
pub open spec fn leading_white(s: Seq<char>) -> nat
    decreases s.len(),
{
    if s.len() == 0 || !unicode_white_space(s[0]) {
        0
    } else {
        1 + leading_white(s.drop_first())
    }
}

/// Number of white-space characters at the end of `s`.
pub open spec fn trailing_white(s: Seq<char>) -> nat
    decreases s.len(),
{
    if s.len() == 0 || !unicode_white_space(s.last()) {
        0
    } else {
        1 + trailing_white(s.drop_last())
    }
}

/// `s` without its leading and trailing white space.
pub open spec fn trimmed(s: Seq<char>) -> Seq<char> {
    if leading_white(s) >= s.len() {
        Seq::empty()
    } else {
        s.subrange(leading_white(s) as int, s.len() - trailing_white(s))
    }
}

/// Every character of `s` is white space (the empty string included).
pub open spec fn all_white(s: Seq<char>) -> bool {
    forall|i: int| 0 <= i < s.len() ==> unicode_white_space(#[trigger] s[i])
}

/// ASCII lower-casing of one character: `A`..=`Z` become `a`..=`z`, all else stays.
pub open spec fn ascii_lower_char(c: char) -> char {
    if 'A' <= c && c <= 'Z' {
        ((c as u32) + 32) as char
    } else {
        c
    }
}

/// ASCII lower-casing of a string, character by character.
pub open spec fn ascii_lower(s: Seq<char>) -> Seq<char> {
    s.map_values(|c: char| ascii_lower_char(c))
}

proof fn lemma_leading_white(s: Seq<char>)
    ensures
        leading_white(s) <= s.len(),
        forall|i: int| 0 <= i < leading_white(s) ==> unicode_white_space(#[trigger] s[i]),
        leading_white(s) < s.len() ==> !unicode_white_space(s[leading_white(s) as int]),
    decreases s.len(),
{
    if s.len() > 0 && unicode_white_space(s[0]) {
        lemma_leading_white(s.drop_first());
        assert forall|i: int| 0 <= i < leading_white(s) implies unicode_white_space(#[trigger] s[i]) by {
            if i > 0 {
                assert(s[i] == s.drop_first()[i - 1]);
            }
        }
    }
}

proof fn lemma_trailing_white(s: Seq<char>)
    ensures
        trailing_white(s) <= s.len(),
        forall|i: int| s.len() - trailing_white(s) <= i < s.len() ==> unicode_white_space(#[trigger] s[i]),
        trailing_white(s) < s.len() ==> !unicode_white_space(s[s.len() - 1 - trailing_white(s)]),
    decreases s.len(),
{
    if s.len() > 0 && unicode_white_space(s.last()) {
        lemma_trailing_white(s.drop_last());
        assert forall|i: int| s.len() - trailing_white(s) <= i < s.len() implies unicode_white_space(#[trigger] s[i]) by {
            if i < s.len() - 1 {
                assert(s[i] == s.drop_last()[i]);
            }
        }
    }
}

/// Trimming removes exactly the white space at both ends: what remains is a
/// contiguous part of the string that neither starts nor ends with white space,
/// and everything before and after it is white space.
pub proof fn lemma_trimmed_is_inner_part(s: Seq<char>)
    ensures
        all_white(s) ==> trimmed(s).len() == 0,
        !all_white(s) ==> exists|i: int, j: int|
            0 <= i < j <= s.len() && trimmed(s) == s.subrange(i, j) && !unicode_white_space(s[i])
                && !unicode_white_space(s[j - 1]) && (forall|k: int|
                0 <= k < i ==> unicode_white_space(#[trigger] s[k])) && (forall|k: int|
                j <= k < s.len() ==> unicode_white_space(#[trigger] s[k])),
{
    lemma_trimmed_empty_iff_all_white(s);
    lemma_leading_white(s);
    lemma_trailing_white(s);
    if !all_white(s) {
        let i = leading_white(s) as int;
        let j = s.len() - trailing_white(s);
        assert(!unicode_white_space(s[i]));
        assert(i < j);
        assert(!unicode_white_space(s[j - 1]));
        assert(trimmed(s) == s.subrange(i, j));
    }
}

/// ASCII lower-casing keeps the length, lowers `A`..=`Z` to `a`..=`z` and leaves
/// every other character as it is.
pub proof fn lemma_ascii_lower(s: Seq<char>)
    ensures
        ascii_lower(s).len() == s.len(),
        forall|i: int|
            0 <= i < s.len() ==> ((#[trigger] s[i] as u32) < 65 || (s[i] as u32) > 90 ==> ascii_lower(s)[i]
                == s[i]),
        forall|i: int|
            0 <= i < s.len() ==> (65 <= (#[trigger] s[i] as u32) <= 90 ==> (ascii_lower(s)[i] as u32)
                == (s[i] as u32) + 32),
{
}

/// A string trims to nothing exactly when it holds only white space.
pub proof fn lemma_trimmed_empty_iff_all_white(s: Seq<char>)
    ensures
        (trimmed(s).len() == 0) == all_white(s),
{
    lemma_leading_white(s);
    lemma_trailing_white(s);
    if leading_white(s) < s.len() {
        let k = leading_white(s) as int;
        assert(!unicode_white_space(s[k]));
        assert(k < s.len() - trailing_white(s));
    } else {
        assert forall|i: int| 0 <= i < s.len() implies unicode_white_space(#[trigger] s[i]) by {}
    }
}

/// `str::trim`: the string slice without leading and trailing white space.
#[verifier::external_body]
pub(crate) fn trim_text(s: &str) -> (r: &str)
    ensures
        r@ == trimmed(s@),
{
    s.trim()
}

/// `str::to_lowercase`: the Unicode lower-case mapping of the string.
#[verifier::external_body]
pub(crate) fn lowercase_text(s: &str) -> (r: String)
    ensures
        r@ == unicode_lowercase(s@),
{
    s.to_lowercase()
}

/// `str::to_uppercase`: the Unicode upper-case mapping of the string.
#[verifier::external_body]
pub(crate) fn uppercase_text(s: &str) -> (r: String)
    ensures
        r@ == unicode_uppercase(s@),
{
    s.to_uppercase()
}

/// `str::to_ascii_lowercase`: a copy with ASCII capitals lowered, every other
/// character unchanged.
#[verifier::external_body]
pub(crate) fn ascii_lowercase_text(s: &str) -> (r: String)
    ensures
        r@ == ascii_lower(s@),
{
    s.to_ascii_lowercase()
}

/// Whether the text is empty or holds only white space.
pub fn is_blank(s: &str) -> (r: bool)
    ensures
        r == all_white(s@),
        r == (trimmed(s@).len() == 0),
{
    proof {
        lemma_trimmed_empty_iff_all_white(s@);
    }
    trim_text(s).is_empty()
}

/// Character-by-character equality of two texts.
pub fn same_text(a: &str, b: &str) -> (r: bool)
    ensures
        r == (a@ == b@),
{
    let x = a.to_string();
    let y = b.to_string();
    x == y
}

/// An owned copy of the text.
pub fn owned(s: &str) -> (r: String)
    ensures
        r@ == s@,
{
    s.to_string()
}

/// The concatenation of two texts.
pub fn join2(a: &str, b: &str) -> (r: String)
    ensures
        r@ == a@ + b@,
{
    let mut r = a.to_string();
    r.append(b);
    r
}

/// The concatenation of four texts.
pub fn join4(a: &str, b: &str, c: &str, d: &str) -> (r: String)
    ensures
        r@ == a@ + b@ + c@ + d@,
{
    let mut r = a.to_string();
    r.append(b);
    r.append(c);
    r.append(d);
    r
}

/// The concatenation of three texts.
pub fn join3(a: &str, b: &str, c: &str) -> (r: String)
    ensures
        r@ == a@ + b@ + c@,
{
    let mut r = a.to_string();
    r.append(b);
    r.append(c);
    r
}

/// The concatenation of five texts.
pub fn join5(a: &str, b: &str, c: &str, d: &str, e: &str) -> (r: String)
    ensures
        r@ == a@ + b@ + c@ + d@ + e@,
{
    let mut r = a.to_string();
    r.append(b);
    r.append(c);
    r.append(d);
    r.append(e);
    r
}

} // verus!
