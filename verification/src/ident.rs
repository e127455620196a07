//! Identifier normalisation: removal of a trailing file extension.

use regex::Regex;
use vstd::prelude::*;

verus! {

/// Pattern that matches a trailing `.pdf`.
pub const TRAILING_PDF_EXT: &'static str = "[.]pdf$";

/// Pattern that matches a trailing `.zip`.
pub const TRAILING_ZIP_EXT: &'static str = "[.]zip$";

/// `s` ends with `suffix`.
pub open spec fn ends_with(s: Seq<char>, suffix: Seq<char>) -> bool {
    suffix.len() <= s.len() && s.subrange(s.len() - suffix.len(), s.len() as int) == suffix
}

/// `s` with one trailing occurrence of `suffix` removed, or `s` itself where
/// it does not end with `suffix`.
pub open spec fn without_suffix(s: Seq<char>, suffix: Seq<char>) -> Seq<char> {
    if ends_with(s, suffix) {
        s.subrange(0, s.len() - suffix.len())
    } else {
        s
    }
}

/// A character that stands for itself in a pattern.
pub open spec fn is_plain_char(c: char) -> bool {
    ('a' <= c && c <= 'z') || ('0' <= c && c <= '9')
}

/// `p` has the shape `[.]ext$`, where `ext` is one to eight lower-case ASCII
/// letters or digits.
pub open spec fn is_trailing_ext_pattern(p: Seq<char>) -> bool {
    &&& 5 <= p.len() <= 12
    &&& p[0] == '['
    &&& p[1] == '.'
    &&& p[2] == ']'
    &&& p[p.len() - 1] == '$'
    &&& forall|i: int| 3 <= i < p.len() - 1 ==> is_plain_char(#[trigger] p[i])
}

/// The literal text that a pattern of the shape `[.]ext$` matches: `.ext`.
pub open spec fn pattern_suffix(p: Seq<char>) -> Seq<char> {
    seq!['.'] + p.subrange(3, p.len() - 1)
}

/// Compiles `pattern` with `regex::Regex::new` and replaces its first match in
/// `haystack` by the empty string with `regex::Regex::replace`.
///
/// Trusted: for a pattern `[.]ext$` the bracketed dot matches a literal dot,
/// the letters and digits match themselves, and `$` matches only at the end
/// of the haystack, so the only possible match is a trailing `.ext`. Such a
/// small pattern always compiles.
#[verifier::external_body]
fn erase_first_match(pattern: &str, haystack: &str) -> (out: String)
    requires
        is_trailing_ext_pattern(pattern@),
    ensures
        out@ == without_suffix(haystack@, pattern_suffix(pattern@)),
{
    Regex::new(pattern).unwrap().replace(haystack, "").into_owned()
}

/// The text matched by `TRAILING_PDF_EXT` is `.pdf`.
pub proof fn lemma_pdf_pattern()
    ensures
        is_trailing_ext_pattern(TRAILING_PDF_EXT@),
        pattern_suffix(TRAILING_PDF_EXT@) == ".pdf"@,
{
    reveal_strlit("[.]pdf$");
    reveal_strlit(".pdf");
    assert(pattern_suffix(TRAILING_PDF_EXT@) =~= ".pdf"@);
}

/// The text matched by `TRAILING_ZIP_EXT` is `.zip`.
pub proof fn lemma_zip_pattern()
    ensures
        is_trailing_ext_pattern(TRAILING_ZIP_EXT@),
        pattern_suffix(TRAILING_ZIP_EXT@) == ".zip"@,
{
    reveal_strlit("[.]zip$");
    reveal_strlit(".zip");
    assert(pattern_suffix(TRAILING_ZIP_EXT@) =~= ".zip"@);
}

/// Removes a trailing `.pdf` from `id`, once.
pub fn strip_pdf_ext(id: &str) -> (core: String)
    ensures
        core@ == without_suffix(id@, ".pdf"@),
{
    proof {
        lemma_pdf_pattern();
    }
    erase_first_match(TRAILING_PDF_EXT, id)
}

/// Removes a trailing `.zip` from `id`, once.
pub fn strip_zip_ext(id: &str) -> (core: String)
    ensures
        core@ == without_suffix(id@, ".zip"@),
{
    proof {
        lemma_zip_pattern();
    }
    erase_first_match(TRAILING_ZIP_EXT, id)
}

/// Appending a suffix and removing it again gives back the text as it was.
pub proof fn lemma_suffix_removed_once(s: Seq<char>, suffix: Seq<char>)
    ensures
        ends_with(s + suffix, suffix),
        without_suffix(s + suffix, suffix) == s,
{
    let t = s + suffix;
    assert(t.subrange(t.len() - suffix.len(), t.len() as int) =~= suffix);
    assert(t.subrange(0, t.len() - suffix.len()) =~= s);
}

/// Text that does not end with the suffix passes through unchanged, and text
/// that does loses exactly the suffix.
pub proof fn lemma_without_suffix_cases(s: Seq<char>, suffix: Seq<char>)
    ensures
        !ends_with(s, suffix) ==> without_suffix(s, suffix) == s,
        ends_with(s, suffix) ==> without_suffix(s, suffix) + suffix == s,
        without_suffix(s, suffix).len() == if ends_with(s, suffix) {
            s.len() - suffix.len()
        } else {
            s.len() as int
        },
{
}

} // verus!
