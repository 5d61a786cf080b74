//! Regular-expression extraction and replacement: the text of a pattern's
//! first capture group in the first match, and replacement of the first or
//! of every non-overlapping match.

use vstd::prelude::*;

verus! {

/// Whether `pattern` is a valid regular expression. Names the success of
/// `regex::Regex::new`, which depends on the pattern alone.
pub uninterp spec fn pattern_compiles(pattern: Seq<char>) -> bool;

/// How many capture groups a valid `pattern` has, the implicit group that
/// spans the whole match included, so the count is at least one. Names what
/// `regex::Regex::captures_len` returns, which depends on the pattern alone.
pub uninterp spec fn group_count_of(pattern: Seq<char>) -> nat;

/// The text spanned by capture group one of the first match of a valid
/// `pattern` in `value`, or `None` where the pattern does not match or the
/// group did not participate in the match. Names what
/// `regex::Regex::captures` followed by `Captures::get(1)` returns, which
/// depends on the two strings alone.
pub uninterp spec fn capture_one_of(pattern: Seq<char>, value: Seq<char>) -> Option<Seq<char>>;

/// Whether a valid `pattern` matches anywhere in `value`. Names what
/// `regex::Regex::is_match` returns, which depends on the two strings alone.
pub uninterp spec fn match_found(pattern: Seq<char>, value: Seq<char>) -> bool;

/// `value` with the first match of a valid `pattern` replaced by `rep`,
/// group references in `rep` resolved against that match. Names what
/// `regex::Regex::replace` returns, which depends on the three strings
/// alone.
pub uninterp spec fn replace_first_of(pattern: Seq<char>, value: Seq<char>, rep: Seq<char>) -> Seq<
    char,
>;

/// `value` with every non-overlapping match of a valid `pattern` replaced
/// by `rep`, leftmost-first, group references in `rep` resolved against
/// each match in turn. Names what `regex::Regex::replace_all` returns,
/// which depends on the three strings alone.
pub uninterp spec fn replace_all_of(pattern: Seq<char>, value: Seq<char>, rep: Seq<char>) -> Seq<
    char,
>;

/// Relies on `regex::Regex::new`, which compiles `pattern` or reports an
/// error, and on `regex::Regex::captures_len`, whose documentation says the
/// count includes the implicit whole-match group and so is never zero.
#[verifier::external_body]
fn regex_group_count(pattern: &str) -> (r: Option<usize>)
    ensures
        r is Some <==> pattern_compiles(pattern@),
        r matches Some(n) ==> n == group_count_of(pattern@) && n >= 1,
{
    match regex::Regex::new(pattern) {
        Ok(re) => Some(re.captures_len()),
        Err(_) => None,
    }
}

/// Relies on `regex::Regex::new` to compile the pattern, on
/// `regex::Regex::captures`, which returns the capture groups of the first
/// match or `None` where there is no match, and on `Captures::get(1)`,
/// which returns `None` for a group that did not participate in the match.
#[verifier::external_body]
fn regex_capture_one(pattern: &str, value: &str) -> (r: Option<String>)
    requires
        pattern_compiles(pattern@),
    ensures
        r.deep_view() == capture_one_of(pattern@, value@),
{
    let re = match regex::Regex::new(pattern) {
        Ok(re) => re,
        Err(_) => return None,
    };
    match re.captures(value) {
        Some(caps) => caps.get(1).map(|m| m.as_str().to_owned()),
        None => None,
    }
}

/// Relies on `regex::Regex::new` to compile the pattern and on
/// `regex::Regex::replace`, which replaces the first match and whose
/// documentation says the haystack is returned unchanged where there is no
/// match.
#[verifier::external_body]
fn regex_replace_first(pattern: &str, value: &str, rep: &str) -> (r: Option<String>)
    ensures
        r is Some <==> pattern_compiles(pattern@),
        r matches Some(s) ==> s@ == replace_first_of(pattern@, value@, rep@),
        pattern_compiles(pattern@) && !match_found(pattern@, value@) ==> r.deep_view()
            == Some(value@),
{
    match regex::Regex::new(pattern) {
        Ok(re) => Some(re.replace(value, rep).into_owned()),
        Err(_) => None,
    }
}

/// Relies on `regex::Regex::new` to compile the pattern and on
/// `regex::Regex::replace_all`, which replaces every non-overlapping match
/// leftmost-first and whose documentation says the haystack is returned
/// unchanged where there is no match.
#[verifier::external_body]
fn regex_replace_every(pattern: &str, value: &str, rep: &str) -> (r: Option<String>)
    ensures
        r is Some <==> pattern_compiles(pattern@),
        r matches Some(s) ==> s@ == replace_all_of(pattern@, value@, rep@),
        pattern_compiles(pattern@) && !match_found(pattern@, value@) ==> r.deep_view()
            == Some(value@),
{
    match regex::Regex::new(pattern) {
        Ok(re) => Some(re.replace_all(value, rep).into_owned()),
        Err(_) => None,
    }
}

/// What `regex_extract` returns: absence where the pattern does not
/// compile, absence where it has no capture group beyond the implicit
/// whole-match group even if it matches, and otherwise the text of group
/// one of the first match, absence again where there is no match or the
/// group did not participate.
pub open spec fn spec_regex_extract(pattern: Seq<char>, value: Seq<char>) -> Option<Seq<char>> {
    if !pattern_compiles(pattern) {
        None
    } else if group_count_of(pattern) <= 1 {
        None
    } else {
        capture_one_of(pattern, value)
    }
}

/// Search `value` for the first match of `pattern` and return the text of
/// its first explicit capture group; `None` where the pattern is invalid,
/// has no explicit capture group, does not match, or the group did not
/// participate in the match. An empty capture is a present empty string,
/// not absence.
pub fn regex_extract(pattern: &str, value: &str) -> (r: Option<String>)
    ensures
        r.deep_view() == spec_regex_extract(pattern@, value@),
        pattern_compiles(pattern@) && group_count_of(pattern@) <= 1 ==> r is None,
{
    match regex_group_count(pattern) {
        None => None,
        Some(groups) => if groups <= 1 {
            None
        } else {
            regex_capture_one(pattern, value)
        },
    }
}

/// What `regex_replace` returns: absence where the pattern does not
/// compile, and otherwise the replacement of the first match alone or of
/// every non-overlapping match, as `once` picks. Zero matches is a
/// success: the value comes back unchanged.
pub open spec fn spec_regex_replace(
    pattern: Seq<char>,
    value: Seq<char>,
    rep: Seq<char>,
    once: bool,
) -> Option<Seq<char>> {
    if !pattern_compiles(pattern) {
        None
    } else if once {
        Some(replace_first_of(pattern, value, rep))
    } else {
        Some(replace_all_of(pattern, value, rep))
    }
}

/// Replace matches of `pattern` in `value` by `rep`: only the first match
/// where `once` is non-zero, every non-overlapping match otherwise; `None`
/// only where the pattern is invalid. Where nothing matches, the result is
/// `value` unchanged, a success and not absence.
pub fn regex_replace(pattern: &str, value: &str, rep: &str, once: i64) -> (r: Option<String>)
    ensures
        r.deep_view() == spec_regex_replace(pattern@, value@, rep@, once != 0),
        r is Some <==> pattern_compiles(pattern@),
        pattern_compiles(pattern@) && !match_found(pattern@, value@) ==> r.deep_view() == Some(
            value@,
        ),
{
    if once != 0 {
        regex_replace_first(pattern, value, rep)
    } else {
        regex_replace_every(pattern, value, rep)
    }
}

} // verus!
