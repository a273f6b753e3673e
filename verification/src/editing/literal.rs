//! Replacing and deleting text that is given literally, with no
//! normalization and no limit on the number of occurrences.

use crate::editing::matching::{find_occurrences, occurrences, offsets_view};
use crate::text::{
    first_match, from_chars, lemma_first_match, lemma_line_of_bound, line_number_at, line_of,
    line_spans, lines_of, matches_at, slice_to_vec, spans_view, splice, splice_chars,
    split_line_spans, to_chars, trim, trim_end_index, trim_start_index,
};
use vstd::prelude::*;

verus! {

/// The offsets of all occurrences of `needle` in `hay`, left to right and
/// without overlap. An empty needle occurs nowhere.
pub open spec fn all_occurrences(hay: Seq<char>, needle: Seq<char>) -> Seq<int> {
    if needle.len() == 0 {
        Seq::empty()
    } else {
        occurrences(hay, needle, 0, hay.len())
    }
}

/// Every place where a non-empty needle stands in the text is one of the
/// occurrences found from `from` on, or overlaps one of them, as long as the
/// search may report as many occurrences as characters are left.
pub proof fn lemma_occurrences_complete(
    hay: Seq<char>,
    needle: Seq<char>,
    from: int,
    cap: nat,
    q: int,
)
    requires
        needle.len() > 0,
        0 <= from <= q,
        cap >= hay.len() - from,
        matches_at(hay, needle, q),
    ensures
        exists|i: int|
            0 <= i < occurrences(hay, needle, from, cap).len() && (#[trigger] occurrences(
                hay,
                needle,
                from,
                cap,
            )[i]) <= q < occurrences(hay, needle, from, cap)[i] + needle.len(),
    decreases cap,
{
    lemma_first_match(hay, needle, from);
    let p = first_match(hay, needle, from)->0;
    let all = occurrences(hay, needle, from, cap);
    let rest = occurrences(hay, needle, p + needle.len(), (cap - 1) as nat);
    assert(all == seq![p] + rest);
    if q < p + needle.len() {
        assert(all[0] == p);
    } else {
        lemma_occurrences_complete(hay, needle, p + needle.len(), (cap - 1) as nat, q);
        let i = choose|i: int|
            0 <= i < rest.len() && (#[trigger] rest[i]) <= q < rest[i] + needle.len();
        assert(all[i + 1] == rest[i]);
    }
}

/// One of several matches, shown to tell them apart.
#[derive(Debug)]
pub struct MatchPreview {
    /// The 1-based line on which the match starts.
    pub line_number: usize,
    /// That line, without the white space around it.
    pub snippet: String,
}

/// How a literal replacement ended.
#[derive(Debug)]
pub enum ReplaceTextOutcome {
    /// The text does not occur.
    NotFound,
    /// The text occurs several times and no occurrence was asked for.
    Ambiguous { count: usize, previews: Vec<MatchPreview> },
    /// The occurrence asked for does not exist.
    InvalidOccurrence { occurrence: usize, count: usize },
    /// One occurrence was replaced.
    Replaced { content: String, occurrence: usize, characters_changed: i128, total_matches: usize },
}

/// The most previews shown for an ambiguous match.
pub const MAX_PREVIEWS: usize = 5;

/// `p` shows the match at offset `pos` of `buf`.
pub open spec fn is_preview(p: MatchPreview, buf: Seq<char>, pos: int) -> bool {
    &&& p.line_number == line_of(buf, pos)
    &&& p.snippet@ == trim(lines_of(buf)[line_of(buf, pos) - 1])
}

/// What a literal replacement owes for the occurrences `occ` of the text.
pub open spec fn is_replace_text_outcome(
    r: ReplaceTextOutcome,
    buf: Seq<char>,
    old_len: int,
    new_text: Seq<char>,
    occurrence: Option<usize>,
    occ: Seq<int>,
) -> bool {
    if occ.len() == 0 {
        r is NotFound
    } else if occ.len() > 1 && occurrence is None {
        &&& r matches ReplaceTextOutcome::Ambiguous { count, previews }
        &&& count == occ.len()
        &&& previews.len() == if occ.len() < MAX_PREVIEWS {
            occ.len()
        } else {
            MAX_PREVIEWS as nat
        }
        &&& forall|i: int| 0 <= i < previews.len() ==> is_preview(#[trigger] previews[i], buf, occ[i])
    } else if occurrence is Some && (occurrence->0 == 0 || occurrence->0 > occ.len()) {
        &&& r matches ReplaceTextOutcome::InvalidOccurrence { occurrence: k2, count }
        &&& k2 == occurrence->0
        &&& count == occ.len()
    } else {
        let k: int = match occurrence {
            Some(k) => k as int,
            None => 1,
        };
        &&& r matches ReplaceTextOutcome::Replaced {
            content,
            occurrence: chosen,
            characters_changed,
            total_matches,
        }
        &&& content@ == splice(buf, occ[k - 1], occ[k - 1] + old_len, new_text)
        &&& chosen == k
        &&& characters_changed == new_text.len() - old_len
        &&& total_matches == occ.len()
    }
}

fn make_preview(buf: &[char], spans: &Vec<(usize, usize)>, pos: usize) -> (p: MatchPreview)
    requires
        spans_view(spans@) == line_spans(buf@),
        forall|i: int| 0 <= i < spans.len() ==> (#[trigger] spans[i]).0 <= spans[i].1 <= buf.len(),
        pos < buf.len(),
    ensures
        is_preview(p, buf@, pos as int),
{
    let line_number = line_number_at(buf, pos);
    proof {
        lemma_line_of_bound(buf@, pos as int);
        assert(spans_view(spans@).len() == spans.len());
        assert(spans_view(spans@)[line_number - 1] == (
            spans[line_number - 1].0 as int,
            spans[line_number - 1].1 as int,
        ));
    }
    let sp = spans[line_number - 1];
    let b = trim_start_index(buf, sp.0, sp.1);
    let e = trim_end_index(buf, b, sp.1);
    let snippet = slice_to_vec(buf, b, e);
    proof {
        let line = buf@.subrange(sp.0 as int, sp.1 as int);
        assert(crate::text::trim_start(line) == buf@.subrange(b as int, sp.1 as int));
        assert(snippet@ == trim(line));
    }
    MatchPreview { line_number, snippet: from_chars(snippet.as_slice()) }
}

/// Replaces one occurrence of `old_text` in `content` by `new_text`. With
/// several occurrences, `occurrence` (1-based) says which one is meant.
pub fn replace_text(content: &str, old_text: &str, new_text: &str, occurrence: Option<usize>) -> (r:
    ReplaceTextOutcome)
    ensures
        is_replace_text_outcome(
            r,
            content@,
            old_text@.len() as int,
            new_text@,
            occurrence,
            all_occurrences(content@, old_text@),
        ),
{
    let buf = to_chars(content);
    let old = to_chars(old_text);
    let new = to_chars(new_text);
    if old.len() == 0 {
        return ReplaceTextOutcome::NotFound;
    }
    let occ = find_occurrences(buf.as_slice(), old.as_slice(), buf.len());
    let ghost all = all_occurrences(content@, old_text@);
    assert(offsets_view(occ@) == all);
    assert(occ.len() == all.len());
    if occ.len() == 0 {
        return ReplaceTextOutcome::NotFound;
    }
    if occ.len() > 1 && occurrence.is_none() {
        let spans = split_line_spans(buf.as_slice());
        let mut previews: Vec<MatchPreview> = Vec::new();
        let mut i: usize = 0;
        while i < occ.len() && i < MAX_PREVIEWS
            invariant
                i <= occ.len(),
                i <= MAX_PREVIEWS,
                previews.len() == i,
                old.len() > 0,
                offsets_view(occ@) == all,
                spans_view(spans@) == line_spans(buf@),
                forall|j: int|
                    0 <= j < spans.len() ==> (#[trigger] spans[j]).0 <= spans[j].1 <= buf.len(),
                forall|j: int| 0 <= j < occ.len() ==> (#[trigger] occ[j]) + old.len() <= buf.len(),
                forall|j: int|
                    0 <= j < previews.len() ==> is_preview(#[trigger] previews[j], buf@, all[j]),
            decreases occ.len() - i,
        {
            assert(all[i as int] == occ[i as int] as int);
            let p = make_preview(buf.as_slice(), &spans, occ[i]);
            previews.push(p);
            i += 1;
        }
        return ReplaceTextOutcome::Ambiguous { count: occ.len(), previews };
    }
    let k: usize = match occurrence {
        Some(k) => {
            if k == 0 || k > occ.len() {
                return ReplaceTextOutcome::InvalidOccurrence { occurrence: k, count: occ.len() };
            }
            k
        },
        None => 1,
    };
    let pos = occ[k - 1];
    assert(all[k - 1] == pos as int);
    let out = splice_chars(buf.as_slice(), pos, pos + old.len(), new.as_slice());
    ReplaceTextOutcome::Replaced {
        content: from_chars(out.as_slice()),
        occurrence: k,
        characters_changed: new.len() as i128 - old.len() as i128,
        total_matches: occ.len(),
    }
}

/// Deletes one occurrence of `text_to_delete` from `content`. With several
/// occurrences, `occurrence` (1-based) says which one is meant.
pub fn delete_text(content: &str, text_to_delete: &str, occurrence: Option<usize>) -> (r:
    ReplaceTextOutcome)
    ensures
        is_replace_text_outcome(
            r,
            content@,
            text_to_delete@.len() as int,
            Seq::<char>::empty(),
            occurrence,
            all_occurrences(content@, text_to_delete@),
        ),
{
    let empty = String::new();
    replace_text(content, text_to_delete, empty.as_str(), occurrence)
}

} // verus!
