//! Applying an edit: splicing the replacement into the buffer that the
//! candidate's offsets were computed against.

use crate::editing::matching::{
    candidate_ranges, describes, describes_all, find_fails, find_matches, literal_ranges,
    occurrences, MatchInfo, MatchingOptions,
};
use crate::editing::normalize::{normalize, normalize_text, NormalizationOptions};
use crate::editing::selection::{
    ambiguity_suggestions, generate_ambiguity_suggestions, generate_no_match_suggestions,
    no_match_suggestions, select_match, selection_of, Selection, Suggestion,
};
use crate::text::{
    first_match, from_chars, lemma_count_newlines_monotone, lemma_first_match, matches_at, splice,
    splice_chars, to_chars,
};
use crate::tool_core::ToolError;
use vstd::prelude::*;

verus! {

/// Where an edit was applied, and what it replaced.
#[derive(Debug, Clone)]
pub struct EditLocation {
    pub line_start: usize,
    pub line_end: usize,
    pub char_start: usize,
    pub char_end: usize,
    pub original_text: String,
    pub new_text: String,
}

/// The result of an applied edit.
#[derive(Debug, Clone)]
pub struct EditOutcome {
    /// The content after the edit.
    pub content: String,
    /// Where the edit was applied.
    pub location: EditLocation,
    /// The number of lines that the replaced text touched.
    pub lines_changed: usize,
    /// The length of the new text minus the length of the text it replaced.
    pub characters_changed: i128,
}

/// Splices `new_text` into `content` in place of the range that
/// `match_info` names.
pub fn apply_edit(content: &str, match_info: &MatchInfo, new_text: &str) -> (r: String)
    requires
        match_info.char_start <= match_info.char_end <= content@.len(),
    ensures
        r@ == splice(
            content@,
            match_info.char_start as int,
            match_info.char_end as int,
            new_text@,
        ),
{
    let buf = to_chars(content);
    let new_chars = to_chars(new_text);
    let out = splice_chars(
        buf.as_slice(),
        match_info.char_start,
        match_info.char_end,
        new_chars.as_slice(),
    );
    from_chars(out.as_slice())
}

/// `outcome` reports the replacement of `start..end` in `buf`, a range on
/// lines `line_start..=line_end`, by `new_text`.
pub open spec fn is_outcome(
    outcome: EditOutcome,
    buf: Seq<char>,
    start: int,
    end: int,
    line_start: int,
    line_end: int,
    new_text: Seq<char>,
) -> bool {
    &&& outcome.content@ == splice(buf, start, end, new_text)
    &&& outcome.location.line_start == line_start
    &&& outcome.location.line_end == line_end
    &&& outcome.location.char_start == start
    &&& outcome.location.char_end == end
    &&& outcome.location.original_text@ == buf.subrange(start, end)
    &&& outcome.location.new_text@ == new_text
    &&& outcome.lines_changed == line_end - line_start + 1
    &&& outcome.characters_changed == new_text.len() - (end - start)
}

/// Applies the edit that `selected` names to `content`, the buffer it was
/// found in, and reports the lines touched and the change in length.
pub fn apply_match(content: &str, selected: &MatchInfo, new_text: &str) -> (r: EditOutcome)
    requires
        selected.char_start <= selected.char_end <= content@.len(),
        1 <= selected.line_start <= selected.line_end,
    ensures
        is_outcome(
            r,
            content@,
            selected.char_start as int,
            selected.char_end as int,
            selected.line_start as int,
            selected.line_end as int,
            new_text@,
        ),
{
    let buf = to_chars(content);
    let new_chars = to_chars(new_text);
    let out = splice_chars(
        buf.as_slice(),
        selected.char_start,
        selected.char_end,
        new_chars.as_slice(),
    );
    let original = crate::text::slice_to_vec(buf.as_slice(), selected.char_start, selected.char_end);
    let old_len: usize = selected.char_end - selected.char_start;
    EditOutcome {
        content: from_chars(out.as_slice()),
        location: EditLocation {
            line_start: selected.line_start,
            line_end: selected.line_end,
            char_start: selected.char_start,
            char_end: selected.char_end,
            original_text: from_chars(original.as_slice()),
            new_text: from_chars(new_chars.as_slice()),
        },
        lines_changed: selected.line_end - selected.line_start + 1,
        characters_changed: new_chars.len() as i128 - old_len as i128,
    }
}

/// How a replacement request ended.
#[derive(Debug)]
pub enum ReplaceOutcome {
    /// Nothing matched; the suggestions name normalizations that would have.
    NoMatches { suggestions: Vec<Suggestion> },
    /// Several candidates matched and none was asked for; the advice says
    /// how to choose one.
    AmbiguousMatch { matches: Vec<MatchInfo>, advice: Vec<String> },
    /// The occurrence asked for does not exist.
    OccurrenceOutOfRange { occurrence: usize, count: usize },
    /// The edit was applied to the selected candidate.
    Applied { outcome: EditOutcome, selected: MatchInfo },
}

/// What `replace_in_content` owes when matching succeeded with the
/// candidates at `ranges` of the normalized buffer `buf`.
pub open spec fn is_replace_outcome(
    out: ReplaceOutcome,
    content: Seq<char>,
    old_text: Seq<char>,
    new_text: Seq<char>,
    occurrence: Option<usize>,
    buf: Seq<char>,
    ranges: Seq<(int, int)>,
    count: int,
    norm_options: NormalizationOptions,
) -> bool {
    match selection_of(ranges.len(), occurrence) {
        Selection::NoMatches => out matches ReplaceOutcome::NoMatches { suggestions }
            && suggestions@ == no_match_suggestions(content, old_text, norm_options),
        Selection::AmbiguousMatch { .. } => out matches ReplaceOutcome::AmbiguousMatch {
            matches,
            advice,
        } && describes_all(matches@, buf, ranges, count) && crate::text::string_texts(advice@)
            == ambiguity_suggestions(ranges.len()),
        Selection::OccurrenceOutOfRange { occurrence: k, count: n } => out
            matches ReplaceOutcome::OccurrenceOutOfRange { occurrence: k2, count: n2 } && k2 == k
            && n2 == n,
        Selection::Selected { position } => out matches ReplaceOutcome::Applied {
            outcome,
            selected,
        } && describes(
            selected,
            buf,
            position + 1,
            ranges[position as int].0,
            ranges[position as int].1,
            count,
        ) && is_outcome(
            outcome,
            buf,
            ranges[position as int].0,
            ranges[position as int].1,
            selected.line_start as int,
            selected.line_end as int,
            new_text,
        ),
    }
}

/// Finds `old_text` in `content`, selects one candidate, and replaces it by
/// `new_text`. Matching and splicing both work on the normalized content:
/// the result is that buffer, unchanged outside the replaced range.
pub fn replace_in_content(
    content: &str,
    old_text: &str,
    new_text: &str,
    occurrence: Option<usize>,
    match_options: &MatchingOptions,
    norm_options: &NormalizationOptions,
) -> (r: Result<ReplaceOutcome, ToolError>)
    ensures
        r is Err <==> find_fails(
            normalize(content@, *norm_options),
            normalize(old_text@, *norm_options),
            *match_options,
            norm_options.ignore_case,
        ),
        r matches Ok(out) ==> is_replace_outcome(
            out,
            content@,
            old_text@,
            new_text@,
            occurrence,
            normalize(content@, *norm_options),
            candidate_ranges(
                normalize(content@, *norm_options),
                normalize(old_text@, *norm_options),
                *match_options,
                norm_options.ignore_case,
            ),
            match_options.context_lines as int,
            *norm_options,
        ),
{
    let mut matches = match find_matches(content, old_text, match_options, norm_options) {
        Err(e) => {
            return Err(e);
        },
        Ok(v) => v,
    };
    let ghost buf = normalize(content@, *norm_options);
    let ghost ranges = candidate_ranges(
        buf,
        normalize(old_text@, *norm_options),
        *match_options,
        norm_options.ignore_case,
    );
    match select_match(matches.len(), occurrence) {
        Selection::NoMatches => Ok(
            ReplaceOutcome::NoMatches {
                suggestions: generate_no_match_suggestions(content, old_text, norm_options),
            },
        ),
        Selection::AmbiguousMatch { count } => {
            let advice = generate_ambiguity_suggestions(count);
            Ok(ReplaceOutcome::AmbiguousMatch { matches, advice })
        },
        Selection::OccurrenceOutOfRange { occurrence, count } => Ok(
            ReplaceOutcome::OccurrenceOutOfRange { occurrence, count },
        ),
        Selection::Selected { position } => {
            let normalized = normalize_text(content, norm_options);
            let selected = matches.remove(position);
            proof {
                let s = ranges[position as int].0;
                let e = ranges[position as int].1;
                lemma_count_newlines_monotone(buf, s, if e > s {
                    e - 1
                } else {
                    s
                });
                crate::text::lemma_count_newlines_bound(buf.take(if e > s {
                    e - 1
                } else {
                    s
                }));
            }
            let outcome = apply_match(normalized.as_str(), &selected, new_text);
            Ok(ReplaceOutcome::Applied { outcome, selected })
        },
    }
}

/// The text written by an edit stands in the result where it was written.
pub proof fn lemma_new_text_found_at_location(
    buf: Seq<char>,
    start: int,
    end: int,
    new_text: Seq<char>,
)
    requires
        0 <= start <= end <= buf.len(),
    ensures
        matches_at(splice(buf, start, end, new_text), new_text, start),
{
    let r = splice(buf, start, end, new_text);
    assert(r.subrange(start, start + new_text.len()) == new_text);
}

/// An edit leaves everything outside the replaced range as it was: the
/// text before it, and the text after it, shifted by the change in length.
pub proof fn lemma_edit_keeps_surroundings(
    buf: Seq<char>,
    start: int,
    end: int,
    new_text: Seq<char>,
)
    requires
        0 <= start <= end <= buf.len(),
    ensures
        splice(buf, start, end, new_text).len() == buf.len() - (end - start) + new_text.len(),
        splice(buf, start, end, new_text).take(start) == buf.take(start),
        splice(buf, start, end, new_text).skip(start + new_text.len()) == buf.skip(end),
        splice(buf, start, end, new_text).subrange(start, start + new_text.len()) == new_text,
{
}


/// The occurrences that the literal search reports are occurrences, come
/// left to right, and do not overlap.
pub proof fn lemma_occurrences_ordered(hay: Seq<char>, needle: Seq<char>, from: int, cap: nat)
    requires
        0 <= from,
    ensures
        occurrences(hay, needle, from, cap).len() <= cap,
        forall|i: int|
            0 <= i < occurrences(hay, needle, from, cap).len() ==> from <= (#[trigger] occurrences(
                hay,
                needle,
                from,
                cap,
            )[i]) && matches_at(hay, needle, occurrences(hay, needle, from, cap)[i]),
        forall|i: int, j: int|
            0 <= i < j < occurrences(hay, needle, from, cap).len() ==> (#[trigger] occurrences(
                hay,
                needle,
                from,
                cap,
            )[i]) + needle.len() <= (#[trigger] occurrences(hay, needle, from, cap)[j]),
    decreases cap,
{
    if cap > 0 {
        lemma_first_match(hay, needle, from);
        match first_match(hay, needle, from) {
            None => {},
            Some(p) => {
                let rest = occurrences(hay, needle, p + needle.len(), (cap - 1) as nat);
                let all = occurrences(hay, needle, from, cap);
                lemma_occurrences_ordered(hay, needle, p + needle.len(), (cap - 1) as nat);
                assert(all == seq![p] + rest);
                assert forall|i: int| 0 <= i < all.len() implies from <= (#[trigger] all[i])
                    && matches_at(hay, needle, all[i]) by {
                    if i > 0 {
                        assert(all[i] == rest[i - 1]);
                    }
                }
                assert forall|i: int, j: int| 0 <= i < j < all.len() implies (#[trigger] all[i])
                    + needle.len() <= (#[trigger] all[j]) by {
                    assert(all[j] == rest[j - 1]);
                    if i > 0 {
                        assert(all[i] == rest[i - 1]);
                    }
                }
            },
        }
    }
}

/// A pattern that occurs exactly once is replaced without being asked
/// which occurrence is meant, and the result is the buffer with that one
/// occurrence exchanged for the new text: what stands before and after it is
/// unchanged.
pub proof fn lemma_single_occurrence_replaced(
    buf: Seq<char>,
    pattern: Seq<char>,
    new_text: Seq<char>,
    options: MatchingOptions,
    ignore_case: bool,
)
    requires
        options.max_matches >= 2,
        occurrences(buf, pattern, 0, options.max_matches as nat).len() == 1,
    ensures
        ({
            let p = occurrences(buf, pattern, 0, options.max_matches as nat)[0];
            let ranges = candidate_ranges(buf, pattern, options, ignore_case);
            let result = splice(buf, p, p + pattern.len(), new_text);
            &&& ranges == seq![(p, p + pattern.len())]
            &&& selection_of(ranges.len(), None) == (Selection::Selected { position: 0 })
            &&& matches_at(buf, pattern, p)
            &&& result.take(p) == buf.take(p)
            &&& result.subrange(p, p + new_text.len()) == new_text
            &&& result.skip(p + new_text.len()) == buf.skip(p + pattern.len())
        }),
{
    let cap = options.max_matches as nat;
    lemma_occurrences_ordered(buf, pattern, 0, cap);
    let p = occurrences(buf, pattern, 0, cap)[0];
    assert(literal_ranges(buf, pattern, cap) == seq![(p, p + pattern.len())]);
    lemma_edit_keeps_surroundings(buf, p, p + pattern.len(), new_text);
}

/// With `n` literal occurrences of a pattern, `n` at least two, a request
/// that names no occurrence is ambiguous among all `n`; a request for
/// occurrence `k` between 1 and `n` selects the `k`-th occurrence counted
/// from the left.
pub proof fn lemma_occurrence_selects_in_order(
    buf: Seq<char>,
    pattern: Seq<char>,
    options: MatchingOptions,
    ignore_case: bool,
    k: usize,
)
    requires
        occurrences(buf, pattern, 0, options.max_matches as nat).len() >= 2,
        1 <= k <= occurrences(buf, pattern, 0, options.max_matches as nat).len(),
    ensures
        ({
            let occ = occurrences(buf, pattern, 0, options.max_matches as nat);
            let ranges = candidate_ranges(buf, pattern, options, ignore_case);
            &&& ranges.len() == occ.len()
            &&& selection_of(ranges.len(), None) == (Selection::AmbiguousMatch {
                count: occ.len() as usize,
            })
            &&& selection_of(ranges.len(), Some(k)) == (Selection::Selected {
                position: (k - 1) as usize,
            })
            &&& ranges[k - 1] == (occ[k - 1], occ[k - 1] + pattern.len())
            &&& matches_at(buf, pattern, occ[k - 1])
            &&& forall|i: int| 0 <= i < k - 1 ==> (#[trigger] occ[i]) + pattern.len() <= occ[k - 1]
        }),
{
    let cap = options.max_matches as nat;
    lemma_occurrences_ordered(buf, pattern, 0, cap);
    let occ = occurrences(buf, pattern, 0, cap);
    assert(literal_ranges(buf, pattern, cap).len() == occ.len());
}

} // verus!
