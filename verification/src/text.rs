//! Text helpers: what `std`'s string searches and trims return, stated over
//! sequences of characters.

use vstd::prelude::*;

verus! {

/// `p` occurs in `s` starting at position `i`.
pub open spec fn occurs_at(s: Seq<char>, p: Seq<char>, i: int) -> bool {
    0 <= i && i + p.len() <= s.len() && s.subrange(i, i + p.len()) == p
}

/// `p` occurs somewhere in `s`.
pub open spec fn occurs_in(s: Seq<char>, p: Seq<char>) -> bool {
    exists|i: int| occurs_at(s, p, i)
}

/// `s` begins with `p`.
pub open spec fn begins_with(s: Seq<char>, p: Seq<char>) -> bool {
    occurs_at(s, p, 0)
}

/// `s` ends with `p`.
pub open spec fn finishes_with(s: Seq<char>, p: Seq<char>) -> bool {
    occurs_at(s, p, s.len() - p.len())
}

/// `s` with every leading repetition of `p` removed.
pub open spec fn without_leading(s: Seq<char>, p: Seq<char>) -> Seq<char>
    decreases s.len(),
{
    if p.len() > 0 && begins_with(s, p) {
        without_leading(s.subrange(p.len() as int, s.len() as int), p)
    } else {
        s
    }
}

/// `s` with every trailing repetition of `p` removed.
pub open spec fn without_trailing(s: Seq<char>, p: Seq<char>) -> Seq<char>
    decreases s.len(),
{
    if p.len() > 0 && finishes_with(s, p) {
        without_trailing(s.subrange(0, s.len() - p.len()), p)
    } else {
        s
    }
}

/// What `char::is_whitespace` returns for a character: whether it has the
/// Unicode property White_Space, by which `str::trim` goes too.
pub uninterp spec fn white_space(c: char) -> bool;

/// `s` without the white space at its front.
pub open spec fn without_leading_space(s: Seq<char>) -> Seq<char>
    decreases s.len(),
{
    if s.len() > 0 && white_space(s[0]) {
        without_leading_space(s.drop_first())
    } else {
        s
    }
}

/// `s` without the white space at its back.
pub open spec fn without_trailing_space(s: Seq<char>) -> Seq<char>
    decreases s.len(),
{
    if s.len() > 0 && white_space(s.last()) {
        without_trailing_space(s.drop_last())
    } else {
        s
    }
}

/// `s` without the white space at its front and at its back.
pub open spec fn trimmed(s: Seq<char>) -> Seq<char> {
    without_trailing_space(without_leading_space(s))
}

/// A text has no white space at its front or at its back.
pub open spec fn bare(s: Seq<char>) -> bool {
    s.len() > 0 ==> !white_space(s[0]) && !white_space(s.last())
}

/// What is left after the white space at the front has gone does not begin
/// with white space.
pub proof fn lemma_front_is_bare(s: Seq<char>)
    ensures
        without_leading_space(s).len() > 0 ==> !white_space(without_leading_space(s)[0]),
    decreases s.len(),
{
    if s.len() > 0 && white_space(s[0]) {
        lemma_front_is_bare(s.drop_first());
    }
}

/// What is left after the white space at the back has gone does not end
/// with white space, and begins as the text did.
pub proof fn lemma_back_is_bare(s: Seq<char>)
    ensures
        without_trailing_space(s).len() > 0 ==> !white_space(without_trailing_space(s).last())
            && without_trailing_space(s)[0] == s[0],
    decreases s.len(),
{
    if s.len() > 0 && white_space(s.last()) {
        lemma_back_is_bare(s.drop_last());
    }
}

/// A trimmed text has no white space at either end.
pub proof fn lemma_trimmed_is_bare(s: Seq<char>)
    ensures
        bare(trimmed(s)),
{
    lemma_front_is_bare(s);
    lemma_back_is_bare(without_leading_space(s));
}

/// Trimming leaves a text without white space at either end as it is.
pub proof fn lemma_trim_keeps_bare_text(s: Seq<char>)
    requires
        bare(s),
    ensures
        trimmed(s) == s,
{
}

/// What `str::to_lowercase` returns for a text.
pub uninterp spec fn lowercased(s: Seq<char>) -> Seq<char>;

/// What `String::from_utf8_lossy` decodes a run of bytes to.
pub uninterp spec fn decoded_lossy(bytes: Seq<u8>) -> Seq<char>;

/// Trusted: `str::trim`, which removes the characters that have the
/// property White_Space from the front and from the back of a text, so
/// that none is left at either end (which [`lemma_trimmed_is_bare`] shows
/// to follow from the first clause). Which characters those are is left to
/// [`white_space`].
#[verifier::external_body]
pub(crate) fn trim(s: &str) -> (r: &str)
    ensures
        r@ == trimmed(s@),
        r@.len() > 0 ==> !white_space(r@[0]) && !white_space(r@.last()),
{
    s.trim()
}

/// Trusted: `str::trim_start_matches` with a text pattern, which removes the
/// pattern from the front for as long as the text begins with it.
#[verifier::external_body]
pub(crate) fn trim_start_matches<'a>(s: &'a str, p: &str) -> (r: &'a str)
    requires
        p@.len() > 0,
    ensures
        r@ == without_leading(s@, p@),
{
    s.trim_start_matches(p)
}

/// Trusted: `str::trim_end_matches` with a text pattern, which removes the
/// pattern from the back for as long as the text ends with it.
#[verifier::external_body]
pub(crate) fn trim_end_matches<'a>(s: &'a str, p: &str) -> (r: &'a str)
    requires
        p@.len() > 0,
    ensures
        r@ == without_trailing(s@, p@),
{
    s.trim_end_matches(p)
}

/// Trusted: `str::contains` with a text pattern, which tells whether the
/// pattern occurs anywhere in the text.
#[verifier::external_body]
pub(crate) fn contains(s: &str, p: &str) -> (r: bool)
    ensures
        r == occurs_in(s@, p@),
{
    s.contains(p)
}

/// Trusted: `str::to_lowercase`. The result is named by [`lowercased`].
#[verifier::external_body]
pub(crate) fn to_lowercase(s: &str) -> (r: String)
    ensures
        r@ == lowercased(s@),
{
    s.to_lowercase()
}

/// Trusted: `String::from_utf8_lossy`, copied into an owned `String`. The
/// result is named by [`decoded_lossy`].
#[verifier::external_body]
pub(crate) fn decode_lossy(bytes: &[u8]) -> (r: String)
    ensures
        r@ == decoded_lossy(bytes@),
{
    String::from_utf8_lossy(bytes).into_owned()
}

/// Whether two texts hold the same characters.
pub fn same_text(a: &str, b: &str) -> (r: bool)
    ensures
        r == (a@ == b@),
{
    let x = String::from_str(a);
    let y = String::from_str(b);
    x == y
}

} // verus!
