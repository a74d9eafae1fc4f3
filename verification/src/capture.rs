use vstd::prelude::*;

verus! {

/// The outcome of compiling a variable's filter pattern and applying it to a
/// text.
pub enum CaptureOutcome {
    /// The pattern is not a valid regular expression.
    BadPattern,
    /// The pattern is valid but matches the text nowhere; carries the
    /// pattern's group count, the whole match included.
    NoMatch(usize),
    /// The pattern matched: the whole match first, then one entry per
    /// capture group of the pattern, absent where the group took no part in
    /// the match.
    Groups(Vec<Option<String>>),
}

/// Whether a filter pattern is a valid regular expression.
pub uninterp spec fn pattern_compiles(pattern: Seq<char>) -> bool;

/// The number of capture groups of a valid filter pattern, the implicit
/// whole-match group included — a property of the pattern alone, whether or
/// not it matches anything.
pub uninterp spec fn pattern_group_count(pattern: Seq<char>) -> nat;

/// What a valid filter pattern captures on a text: `None` where the pattern
/// matches nowhere; otherwise the captures of the leftmost match — the whole
/// match at position zero, then one entry per capture group of the pattern.
pub uninterp spec fn pattern_captures(pattern: Seq<char>, text: Seq<char>) -> Option<
    Seq<Option<Seq<char>>>,
>;

/// Relies on regex::Regex::new for whether the pattern compiles, on
/// regex::Regex::captures_len for its static group count, and on
/// regex::Regex::captures for the captures of its leftmost match against the
/// text; each result depends on the pattern and the text alone. Per regex's
/// documentation, the reported captures hold exactly one entry per capture
/// group of the pattern plus the whole match at position zero, which is
/// always present.
#[verifier::external_body]
pub(crate) fn run_filter(pattern: &str, text: &str) -> (r: CaptureOutcome)
    ensures
        match r {
            CaptureOutcome::BadPattern => !pattern_compiles(pattern@),
            CaptureOutcome::NoMatch(count) => pattern_compiles(pattern@) && pattern_captures(
                pattern@,
                text@,
            ) is None && count == pattern_group_count(pattern@),
            CaptureOutcome::Groups(groups) => pattern_compiles(pattern@) && pattern_captures(
                pattern@,
                text@,
            ) == Some(groups.deep_view()) && groups.deep_view().len() == pattern_group_count(
                pattern@,
            ) && groups.deep_view().len() >= 1 && groups.deep_view()[0] is Some,
        },
{
    match regex::Regex::new(pattern) {
        Err(_) => CaptureOutcome::BadPattern,
        Ok(re) => match re.captures(text) {
            None => CaptureOutcome::NoMatch(re.captures_len()),
            Some(caps) => CaptureOutcome::Groups(
                caps.iter().map(|m| m.map(|g| g.as_str().to_owned())).collect(),
            ),
        },
    }
}

} // verus!
