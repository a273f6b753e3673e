//! Choosing one candidate among those found, and what to suggest when none
//! or several were found.

use crate::editing::normalize::{
    collapse_whitespace, collapse_whitespace_chars, lowercase_of, normalize_eol_chars, unify_eol,
    NormalizationOptions,
};
use crate::text::{contains, contains_text, decimal, from_chars, push_decimal, push_str, to_chars};
use vstd::prelude::*;

verus! {

/// What the selector decides for a list of candidates.
#[derive(Debug, Clone, Copy, PartialEq, Eq, Structural)]
pub enum Selection {
    /// Nothing was found.
    NoMatches,
    /// Several candidates were found and none was asked for.
    AmbiguousMatch { count: usize },
    /// The occurrence asked for does not exist.
    OccurrenceOutOfRange { occurrence: usize, count: usize },
    /// The candidate at this 0-based position is chosen.
    Selected { position: usize },
}

/// The selector's decision for `count` candidates and the 1-based
/// `occurrence` that was asked for, if any.
pub open spec fn selection_of(count: nat, occurrence: Option<usize>) -> Selection {
    if count == 0 {
        Selection::NoMatches
    } else {
        match occurrence {
            None => if count >= 2 {
                Selection::AmbiguousMatch { count: count as usize }
            } else {
                Selection::Selected { position: 0 }
            },
            Some(k) => if 1 <= k <= count {
                Selection::Selected { position: (k - 1) as usize }
            } else {
                Selection::OccurrenceOutOfRange { occurrence: k, count: count as usize }
            },
        }
    }
}

/// Decides which of `count` candidates an edit applies to.
pub fn select_match(count: usize, occurrence: Option<usize>) -> (r: Selection)
    ensures
        r == selection_of(count as nat, occurrence),
{
    if count == 0 {
        return Selection::NoMatches;
    }
    match occurrence {
        None => {
            if count >= 2 {
                Selection::AmbiguousMatch { count }
            } else {
                Selection::Selected { position: 0 }
            }
        },
        Some(k) => {
            if 1 <= k && k <= count {
                Selection::Selected { position: k - 1 }
            } else {
                Selection::OccurrenceOutOfRange { occurrence: k, count }
            }
        },
    }
}

/// A normalization flag that would have made the pattern match.
#[derive(Debug, Clone, Copy, PartialEq, Eq, Structural)]
pub enum Suggestion {
    /// The pattern occurs when case is ignored.
    CaseDifference,
    /// The pattern occurs once line endings are unified.
    EolDifference,
    /// The pattern occurs once runs of white space are collapsed.
    WhitespaceDifference,
}

impl Suggestion {
    /// The machine-readable kind of the suggestion.
    pub fn kind(&self) -> (r: &'static str)
        ensures
            r@ == match *self {
                Suggestion::CaseDifference => "case_difference"@,
                Suggestion::EolDifference => "eol_difference"@,
                Suggestion::WhitespaceDifference => "whitespace_difference"@,
            },
    {
        match self {
            Suggestion::CaseDifference => "case_difference",
            Suggestion::EolDifference => "eol_difference",
            Suggestion::WhitespaceDifference => "whitespace_difference",
        }
    }

    /// What was observed.
    pub fn description(&self) -> (r: &'static str)
        ensures
            r@ == match *self {
                Suggestion::CaseDifference => "Pattern found with different case"@,
                Suggestion::EolDifference => "Pattern found with different line endings"@,
                Suggestion::WhitespaceDifference => "Pattern found with different whitespace"@,
            },
    {
        match self {
            Suggestion::CaseDifference => "Pattern found with different case",
            Suggestion::EolDifference => "Pattern found with different line endings",
            Suggestion::WhitespaceDifference => "Pattern found with different whitespace",
        }
    }

    /// What to change in the request.
    pub fn suggestion(&self) -> (r: &'static str)
        ensures
            r@ == match *self {
                Suggestion::CaseDifference => "Enable case-insensitive matching with 'ignore_case: true'"@,
                Suggestion::EolDifference => "Line ending differences detected. Try 'normalize_eol: true'"@,
                Suggestion::WhitespaceDifference => "Whitespace differences detected. Try 'normalize_whitespace: true'"@,
            },
    {
        match self {
            Suggestion::CaseDifference => "Enable case-insensitive matching with 'ignore_case: true'",
            Suggestion::EolDifference => "Line ending differences detected. Try 'normalize_eol: true'",
            Suggestion::WhitespaceDifference => "Whitespace differences detected. Try 'normalize_whitespace: true'",
        }
    }
}

/// Whether `pattern` occurs in `content` once both are folded to lower case.
pub open spec fn found_ignoring_case(content: Seq<char>, pattern: Seq<char>) -> bool {
    contains_text(lowercase_of(content), lowercase_of(pattern))
}

/// Whether `pattern` occurs in `content` once line endings are unified.
pub open spec fn found_with_unified_eol(content: Seq<char>, pattern: Seq<char>) -> bool {
    contains_text(unify_eol(content), unify_eol(pattern))
}

/// Whether `pattern` occurs in `content` once white space is collapsed.
pub open spec fn found_with_collapsed_whitespace(content: Seq<char>, pattern: Seq<char>) -> bool {
    contains_text(collapse_whitespace(content), collapse_whitespace(pattern))
}

/// The suggestions owed when nothing matched: one for each alternate
/// normalization under which the pattern occurs, in the order case, line
/// endings, white space. Case is only suggested while it is not ignored
/// already.
pub open spec fn no_match_suggestions(
    content: Seq<char>,
    pattern: Seq<char>,
    options: NormalizationOptions,
) -> Seq<Suggestion> {
    let a: Seq<Suggestion> = if !options.ignore_case && found_ignoring_case(content, pattern) {
        seq![Suggestion::CaseDifference]
    } else {
        Seq::empty()
    };
    let b: Seq<Suggestion> = if found_with_unified_eol(content, pattern) {
        seq![Suggestion::EolDifference]
    } else {
        Seq::empty()
    };
    let c: Seq<Suggestion> = if found_with_collapsed_whitespace(content, pattern) {
        seq![Suggestion::WhitespaceDifference]
    } else {
        Seq::empty()
    };
    a + b + c
}

/// Tries the three alternate normalizations on a pattern that did not
/// match, and names each that would have produced a hit. The content is only
/// read.
pub fn generate_no_match_suggestions(
    content: &str,
    pattern: &str,
    norm_options: &NormalizationOptions,
) -> (r: Vec<Suggestion>)
    ensures
        r@ == no_match_suggestions(content@, pattern@, *norm_options),
{
    let mut r: Vec<Suggestion> = Vec::new();
    let c = to_chars(content);
    let p = to_chars(pattern);
    if !norm_options.ignore_case {
        let lc = to_chars(content.to_lowercase().as_str());
        let lp = to_chars(pattern.to_lowercase().as_str());
        if contains(lc.as_slice(), lp.as_slice()) {
            r.push(Suggestion::CaseDifference);
        }
    }
    let ghost a = r@;
    let ec = normalize_eol_chars(c.as_slice());
    let ep = normalize_eol_chars(p.as_slice());
    if contains(ec.as_slice(), ep.as_slice()) {
        r.push(Suggestion::EolDifference);
    }
    let ghost ab = r@;
    let wc = collapse_whitespace_chars(c.as_slice());
    let wp = collapse_whitespace_chars(p.as_slice());
    if contains(wc.as_slice(), wp.as_slice()) {
        r.push(Suggestion::WhitespaceDifference);
    }
    assert(r@ == no_match_suggestions(content@, pattern@, *norm_options));
    r
}

/// The advice given when several candidates were found.
pub open spec fn ambiguity_suggestions(count: nat) -> Seq<Seq<char>> {
    seq![
        "Use 'occurrence: N' parameter to select specific match (1-"@ + decimal(count) + ")"@,
        "Provide more context in old_text to make the match unique"@,
        "Use file navigation tools to view matches: 'open' and 'goto <line_number>'"@,
    ]
}

/// The advice given when `count` candidates were found and none was asked
/// for.
pub fn generate_ambiguity_suggestions(count: usize) -> (r: Vec<String>)
    ensures
        crate::text::string_texts(r@) == ambiguity_suggestions(count as nat),
{
    let mut first: Vec<char> = Vec::new();
    push_str(&mut first, "Use 'occurrence: N' parameter to select specific match (1-");
    push_decimal(&mut first, count);
    push_str(&mut first, ")");
    let mut r: Vec<String> = Vec::new();
    r.push(from_chars(first.as_slice()));
    r.push("Provide more context in old_text to make the match unique".to_owned());
    r.push(
        "Use file navigation tools to view matches: 'open' and 'goto <line_number>'".to_owned(),
    );
    assert(crate::text::string_texts(r@) == ambiguity_suggestions(count as nat));
    r
}

} // verus!
