//! Match candidates: where a pattern stands in a buffer, with the lines and
//! context around it.

use crate::editing::normalize::{normalize, normalize_chars, NormalizationOptions};
use crate::editing::similarity::{calculate_similarity, similarity, Ratio};
use crate::patterns::{
    byte_spans_view, byte_to_char_offset, char_offset, compiled, on_boundary, regex_compiles,
    regex_find_all, regex_spans,
};
use crate::text::{
    extend_chars, find_from, first_match, from_chars, join_lines, join_spans, line_number_at,
    line_of, line_spans, lines_of, push_str, slice_to_vec, spans_view, split_line_spans,
};
use crate::tool_core::ToolError;
use vstd::prelude::*;
use vstd::string::StringExecFns;

verus! {

/// How matches are looked for, and how many are reported.
#[derive(Debug, Clone, Copy)]
pub struct MatchingOptions {
    /// Treat the pattern as a regular expression when it is not found
    /// literally.
    pub regex: bool,
    /// Fall back to whole lines that resemble the pattern.
    pub fuzzy: bool,
    /// The least similarity at which a line is accepted.
    pub fuzzy_threshold: Ratio,
    /// How many lines of context to keep before and after a match.
    pub context_lines: usize,
    /// The most candidates to report.
    pub max_matches: usize,
}

impl Default for MatchingOptions {
    fn default() -> (r: Self)
        ensures
            !r.regex,
            r.fuzzy,
            r.fuzzy_threshold == (Ratio { num: 4, den: 5 }),
            r.context_lines == 3,
            r.max_matches == 10,
    {
        MatchingOptions {
            regex: false,
            fuzzy: true,
            fuzzy_threshold: Ratio { num: 4, den: 5 },
            context_lines: 3,
            max_matches: 10,
        }
    }
}

/// One place where the pattern was found.
#[derive(Debug, Clone)]
pub struct MatchInfo {
    /// The 1-based ordinal of this candidate among those reported.
    pub index: usize,
    /// The 1-based line on which the match starts.
    pub line_start: usize,
    /// The 1-based line on which the match ends.
    pub line_end: usize,
    /// The offset of the first matched character.
    pub char_start: usize,
    /// The offset after the last matched character.
    pub char_end: usize,
    /// The matched text.
    pub matched_text: String,
    /// The lines before the match, joined by line feeds.
    pub context_before: String,
    /// The lines after the match, joined by line feeds.
    pub context_after: String,
    /// How closely the matched text resembles the pattern.
    pub similarity_score: Ratio,
    /// A one-line description of the match.
    pub preview: String,
}

/// The offset of the last character in `start..end`, or `start` when the
/// range is empty.
pub open spec fn last_offset(start: int, end: int) -> int {
    if end > start {
        end - 1
    } else {
        start
    }
}

/// Up to `count` lines of `s` that come right before line `line` (1-based),
/// joined by line feeds.
pub open spec fn context_before(s: Seq<char>, line: int, count: int) -> Seq<char> {
    let lines = lines_of(s);
    let hi = if line - 1 < lines.len() {
        line - 1
    } else {
        lines.len() as int
    };
    let lo = if hi - count > 0 {
        hi - count
    } else {
        0
    };
    join_lines(lines.subrange(lo, hi))
}

/// Up to `count` lines of `s` that come right after line `line` (1-based),
/// joined by line feeds.
pub open spec fn context_after(s: Seq<char>, line: int, count: int) -> Seq<char> {
    let lines = lines_of(s);
    let lo = if line < lines.len() {
        line
    } else {
        lines.len() as int
    };
    let hi = if line + count < lines.len() {
        line + count
    } else {
        lines.len() as int
    };
    join_lines(lines.subrange(lo, hi))
}

/// `m` describes the range `start..end` of `buf` as candidate number
/// `ordinal`, with `count` lines of context on each side.
pub open spec fn describes(
    m: MatchInfo,
    buf: Seq<char>,
    ordinal: int,
    start: int,
    end: int,
    count: int,
) -> bool {
    &&& 0 <= start <= end <= buf.len()
    &&& m.index == ordinal
    &&& m.char_start == start
    &&& m.char_end == end
    &&& m.matched_text@ == buf.subrange(start, end)
    &&& m.line_start == line_of(buf, start)
    &&& m.line_end == line_of(buf, last_offset(start, end))
    &&& m.context_before@ == context_before(buf, m.line_start as int, count)
    &&& m.context_after@ == context_after(buf, m.line_end as int, count)
}

/// `m` is an exact candidate: it describes `start..end` with a score of one.
pub open spec fn is_exact_candidate(
    m: MatchInfo,
    buf: Seq<char>,
    ordinal: int,
    start: int,
    end: int,
    count: int,
) -> bool {
    &&& describes(m, buf, ordinal, start, end, count)
    &&& m.similarity_score == (Ratio { num: 1, den: 1 })
    &&& m.preview@ == buf.subrange(start, end) + " -> "@
}

/// The lines before line `line`, at most `count` of them.
pub fn get_context_before(
    buf: &[char],
    spans: &Vec<(usize, usize)>,
    line: usize,
    count: usize,
) -> (r: String)
    requires
        spans_view(spans@) == line_spans(buf@),
        forall|i: int| 0 <= i < spans.len() ==> (#[trigger] spans[i]).0 <= spans[i].1 <= buf.len(),
        line >= 1,
    ensures
        r@ == context_before(buf@, line as int, count as int),
{
    let hi: usize = if line - 1 < spans.len() {
        line - 1
    } else {
        spans.len()
    };
    let lo: usize = if hi > count {
        hi - count
    } else {
        0
    };
    let v = join_spans(buf, spans, lo, hi);
    proof {
        let f = |sp: (int, int)| buf@.subrange(sp.0, sp.1);
        assert(spans_view(spans@).len() == spans.len());
        assert(lines_of(buf@).subrange(lo as int, hi as int) == spans_view(spans@).subrange(
            lo as int,
            hi as int,
        ).map_values(f));
    }
    from_chars(v.as_slice())
}

/// The lines after line `line`, at most `count` of them.
pub fn get_context_after(
    buf: &[char],
    spans: &Vec<(usize, usize)>,
    line: usize,
    count: usize,
) -> (r: String)
    requires
        spans_view(spans@) == line_spans(buf@),
        forall|i: int| 0 <= i < spans.len() ==> (#[trigger] spans[i]).0 <= spans[i].1 <= buf.len(),
    ensures
        r@ == context_after(buf@, line as int, count as int),
{
    let n = spans.len();
    let lo: usize = if line < n {
        line
    } else {
        n
    };
    let hi: usize = if count < n - lo {
        lo + count
    } else {
        n
    };
    let v = join_spans(buf, spans, lo, hi);
    proof {
        let f = |sp: (int, int)| buf@.subrange(sp.0, sp.1);
        assert(spans_view(spans@).len() == spans.len());
        assert(lines_of(buf@).subrange(lo as int, hi as int) == spans_view(spans@).subrange(
            lo as int,
            hi as int,
        ).map_values(f));
    }
    from_chars(v.as_slice())
}

/// Describes the range `start..end` of `buf` as an exact candidate.
pub fn create_match_info(
    buf: &[char],
    spans: &Vec<(usize, usize)>,
    start: usize,
    end: usize,
    index: usize,
    context_lines: usize,
) -> (m: MatchInfo)
    requires
        spans_view(spans@) == line_spans(buf@),
        forall|i: int| 0 <= i < spans.len() ==> (#[trigger] spans[i]).0 <= spans[i].1 <= buf.len(),
        start <= end <= buf.len(),
        buf.len() < usize::MAX,
    ensures
        is_exact_candidate(m, buf@, index as int, start as int, end as int, context_lines as int),
{
    let matched = slice_to_vec(buf, start, end);
    let line_start = line_number_at(buf, start);
    let last: usize = if end > start {
        end - 1
    } else {
        start
    };
    let line_end = line_number_at(buf, last);
    let mut preview: Vec<char> = Vec::new();
    extend_chars(&mut preview, matched.as_slice());
    push_str(&mut preview, " -> ");
    MatchInfo {
        index,
        line_start,
        line_end,
        char_start: start,
        char_end: end,
        matched_text: from_chars(matched.as_slice()),
        context_before: get_context_before(buf, spans, line_start, context_lines),
        context_after: get_context_after(buf, spans, line_end, context_lines),
        similarity_score: Ratio::one(),
        preview: from_chars(preview.as_slice()),
    }
}

/// The offsets of the first `cap` occurrences of `needle` in `hay` at or
/// after `from`, left to right, each search resuming where the previous
/// occurrence ended.
pub open spec fn occurrences(hay: Seq<char>, needle: Seq<char>, from: int, cap: nat) -> Seq<int>
    decreases cap,
{
    if cap == 0 {
        Seq::empty()
    } else {
        match first_match(hay, needle, from) {
            None => Seq::empty(),
            Some(p) => seq![p] + occurrences(hay, needle, p + needle.len(), (cap - 1) as nat),
        }
    }
}

/// A vector of offsets, read as mathematical integers.
pub open spec fn offsets_view(v: Seq<usize>) -> Seq<int> {
    v.map_values(|p: usize| p as int)
}

/// The offsets of the first `cap` non-overlapping occurrences of `needle`.
pub fn find_occurrences(hay: &[char], needle: &[char], cap: usize) -> (r: Vec<usize>)
    ensures
        offsets_view(r@) == occurrences(hay@, needle@, 0, cap as nat),
        forall|i: int| 0 <= i < r.len() ==> (#[trigger] r[i]) + needle.len() <= hay.len(),
{
    let mut r: Vec<usize> = Vec::new();
    let mut start: usize = 0;
    assert(offsets_view(r@) == Seq::<int>::empty());
    while r.len() < cap
        invariant
            r.len() <= cap,
            start <= hay.len(),
            occurrences(hay@, needle@, 0, cap as nat) == offsets_view(r@) + occurrences(
                hay@,
                needle@,
                start as int,
                (cap - r.len()) as nat,
            ),
            forall|i: int| 0 <= i < r.len() ==> (#[trigger] r[i]) + needle.len() <= hay.len(),
        decreases cap - r.len(),
    {
        match find_from(hay, needle, start) {
            None => {
                assert(offsets_view(r@) + Seq::<int>::empty() == offsets_view(r@));
                return r;
            },
            Some(p) => {
                proof {
                    crate::text::lemma_first_match(hay@, needle@, start as int);
                    assert(offsets_view(r@.push(p)) == offsets_view(r@) + seq![p as int]);
                }
                r.push(p);
                start = p + needle.len();
            },
        }
    }
    assert(offsets_view(r@) + Seq::<int>::empty() == offsets_view(r@));
    r
}

/// The exact candidates for the literal occurrences of `pattern` in `buf`:
/// one per occurrence, left to right, at most `max_matches` of them.
pub fn literal_matches(
    buf: &[char],
    pattern: &[char],
    context_lines: usize,
    max_matches: usize,
) -> (r: Vec<MatchInfo>)
    requires
        buf.len() < usize::MAX,
    ensures
        exact_candidates(
            r@,
            buf@,
            literal_ranges(buf@, pattern@, max_matches as nat),
            context_lines as int,
        ),
{
    let occ = find_occurrences(buf, pattern, max_matches);
    let spans = split_line_spans(buf);
    let mut r: Vec<MatchInfo> = Vec::new();
    let mut i: usize = 0;
    let ghost all = occurrences(buf@, pattern@, 0, max_matches as nat);
    assert(occ.len() == all.len());
    while i < occ.len()
        invariant
            i <= occ.len(),
            r.len() == i,
            buf.len() < usize::MAX,
            offsets_view(occ@) == all,
            spans_view(spans@) == line_spans(buf@),
            forall|j: int|
                0 <= j < spans.len() ==> (#[trigger] spans[j]).0 <= spans[j].1 <= buf.len(),
            forall|j: int| 0 <= j < occ.len() ==> (#[trigger] occ[j]) + pattern.len() <= buf.len(),
            forall|j: int|
                0 <= j < r.len() ==> is_exact_candidate(
                    #[trigger] r[j],
                    buf@,
                    j + 1,
                    all[j],
                    all[j] + pattern.len(),
                    context_lines as int,
                ),
        decreases occ.len() - i,
    {
        let p = occ[i];
        assert(all[i as int] == p as int);
        let m = create_match_info(buf, &spans, p, p + pattern.len(), i + 1, context_lines);
        r.push(m);
        i += 1;
    }
    r
}


/// Whether the byte range `sp` of the encoding of `s` is a range of whole
/// characters.
pub open spec fn usable_span(s: Seq<char>, sp: (int, int)) -> bool {
    &&& on_boundary(s, sp.0)
    &&& on_boundary(s, sp.1)
    &&& char_offset(s, sp.0) <= char_offset(s, sp.1)
}

/// The first `cap` usable byte ranges among `spans`, as character ranges.
pub open spec fn char_spans(s: Seq<char>, spans: Seq<(int, int)>, cap: nat) -> Seq<(int, int)>
    decreases spans.len(),
{
    if cap == 0 || spans.len() == 0 {
        Seq::empty()
    } else if usable_span(s, spans[0]) {
        seq![(char_offset(s, spans[0].0), char_offset(s, spans[0].1))] + char_spans(
            s,
            spans.drop_first(),
            (cap - 1) as nat,
        )
    } else {
        char_spans(s, spans.drop_first(), cap)
    }
}

/// The first `cap` usable byte ranges among `spans`, as character ranges.
pub fn to_char_spans(content: &str, spans: &Vec<(usize, usize)>, cap: usize) -> (r: Vec<
    (usize, usize),
>)
    ensures
        spans_view(r@) == char_spans(content@, byte_spans_view(spans@), cap as nat),
        forall|i: int| 0 <= i < r.len() ==> (#[trigger] r[i]).0 <= r[i].1 <= content@.len(),
{
    let mut r: Vec<(usize, usize)> = Vec::new();
    let mut i: usize = 0;
    let ghost all = byte_spans_view(spans@);
    assert(spans_view(r@) == Seq::<(int, int)>::empty());
    assert(all.skip(0) == all);
    while i < spans.len() && r.len() < cap
        invariant
            i <= spans.len(),
            r.len() <= cap,
            all == byte_spans_view(spans@),
            char_spans(content@, all, cap as nat) == spans_view(r@) + char_spans(
                content@,
                all.skip(i as int),
                (cap - r.len()) as nat,
            ),
            forall|j: int| 0 <= j < r.len() ==> (#[trigger] r[j]).0 <= r[j].1 <= content@.len(),
        decreases spans.len() - i,
    {
        let sp = spans[i];
        proof {
            assert(all.skip(i as int)[0] == (sp.0 as int, sp.1 as int));
            assert(all.skip(i as int).drop_first() == all.skip(i + 1));
        }
        let a = byte_to_char_offset(content, sp.0);
        let b = byte_to_char_offset(content, sp.1);
        match (a, b) {
            (Some(cs), Some(ce)) => {
                if cs <= ce {
                    proof {
                        assert(spans_view(r@.push((cs, ce))) == spans_view(r@) + seq![
                            (cs as int, ce as int),
                        ]);
                    }
                    r.push((cs, ce));
                }
            },
            _ => {},
        }
        i += 1;
    }
    proof {
        assert(char_spans(content@, all.skip(i as int), (cap - r.len()) as nat) == Seq::<
            (int, int),
        >::empty());
        assert(spans_view(r@) + Seq::<(int, int)>::empty() == spans_view(r@));
    }
    r
}

/// The exact candidates for the character ranges `ranges` of `buf`, in
/// order.
pub fn span_matches(buf: &[char], ranges: &Vec<(usize, usize)>, context_lines: usize) -> (r: Vec<
    MatchInfo,
>)
    requires
        buf.len() < usize::MAX,
        forall|i: int| 0 <= i < ranges.len() ==> (#[trigger] ranges[i]).0 <= ranges[i].1 <= buf.len(),
    ensures
        r.len() == ranges.len(),
        forall|i: int|
            0 <= i < r.len() ==> is_exact_candidate(
                #[trigger] r[i],
                buf@,
                i + 1,
                ranges[i].0 as int,
                ranges[i].1 as int,
                context_lines as int,
            ),
{
    let spans = split_line_spans(buf);
    let mut r: Vec<MatchInfo> = Vec::new();
    let mut i: usize = 0;
    while i < ranges.len()
        invariant
            i <= ranges.len(),
            r.len() == i,
            buf.len() < usize::MAX,
            spans_view(spans@) == line_spans(buf@),
            forall|j: int|
                0 <= j < spans.len() ==> (#[trigger] spans[j]).0 <= spans[j].1 <= buf.len(),
            forall|j: int|
                0 <= j < ranges.len() ==> (#[trigger] ranges[j]).0 <= ranges[j].1 <= buf.len(),
            forall|j: int|
                0 <= j < r.len() ==> is_exact_candidate(
                    #[trigger] r[j],
                    buf@,
                    j + 1,
                    ranges[j].0 as int,
                    ranges[j].1 as int,
                    context_lines as int,
                ),
        decreases ranges.len() - i,
    {
        let sp = ranges[i];
        let m = create_match_info(buf, &spans, sp.0, sp.1, i + 1, context_lines);
        r.push(m);
        i += 1;
    }
    r
}

/// `r` holds the exact candidates for the character ranges `ranges` of
/// `buf`, numbered from one.
pub open spec fn exact_candidates(
    r: Seq<MatchInfo>,
    buf: Seq<char>,
    ranges: Seq<(int, int)>,
    count: int,
) -> bool {
    &&& r.len() == ranges.len()
    &&& forall|i: int|
        0 <= i < r.len() ==> is_exact_candidate(
            #[trigger] r[i],
            buf,
            i + 1,
            ranges[i].0,
            ranges[i].1,
            count,
        )
}

/// The candidates for the matches that a regular expression reported as the
/// byte ranges `byte_spans` of `content`: one exact candidate for each of
/// the first `max_matches` ranges that cover whole characters.
pub fn regex_candidates(
    content: &str,
    byte_spans: &Vec<(usize, usize)>,
    context_lines: usize,
    max_matches: usize,
) -> (r: Vec<MatchInfo>)
    requires
        content@.len() < usize::MAX,
    ensures
        exact_candidates(
            r@,
            content@,
            char_spans(content@, byte_spans_view(byte_spans@), max_matches as nat),
            context_lines as int,
        ),
{
    let buf = crate::text::to_chars(content);
    let ranges = to_char_spans(content, byte_spans, max_matches);
    let r = span_matches(buf.as_slice(), &ranges, context_lines);
    proof {
        let cs = char_spans(content@, byte_spans_view(byte_spans@), max_matches as nat);
        assert(spans_view(ranges@) == cs);
        assert forall|i: int| 0 <= i < r.len() implies is_exact_candidate(
            #[trigger] r[i],
            content@,
            i + 1,
            cs[i].0,
            cs[i].1,
            context_lines as int,
        ) by {
            assert(cs[i] == (ranges[i].0 as int, ranges[i].1 as int));
        }
    }
    r
}

/// Whether a line is close enough to the pattern to count as a fuzzy match.
pub open spec fn accepts(line: Seq<char>, pattern: Seq<char>, threshold: Ratio) -> bool {
    similarity(line, pattern).spec_at_least(threshold)
}

/// The text of line `i` (0-based) of `buf`.
pub open spec fn line_text(buf: Seq<char>, i: int) -> Seq<char> {
    buf.subrange(line_spans(buf)[i].0, line_spans(buf)[i].1)
}

/// The indices of the first `cap` lines of `buf`, from line `from` on, that
/// are accepted as fuzzy matches of `pattern`.
pub open spec fn fuzzy_lines(
    buf: Seq<char>,
    pattern: Seq<char>,
    threshold: Ratio,
    from: int,
    cap: nat,
) -> Seq<int>
    decreases line_spans(buf).len() - from,
{
    if cap == 0 || from < 0 || from >= line_spans(buf).len() {
        Seq::empty()
    } else if accepts(line_text(buf, from), pattern, threshold) {
        seq![from] + fuzzy_lines(buf, pattern, threshold, from + 1, (cap - 1) as nat)
    } else {
        fuzzy_lines(buf, pattern, threshold, from + 1, cap)
    }
}

/// A fuzzy candidate stands on one line, numbered by the line's place in
/// the buffer.
pub proof fn lemma_fuzzy_candidate_line(
    m: MatchInfo,
    buf: Seq<char>,
    ordinal: int,
    line: int,
    pattern: Seq<char>,
    count: int,
)
    requires
        0 <= line < line_spans(buf).len(),
        is_fuzzy_candidate(m, buf, ordinal, line, pattern, count),
    ensures
        m.line_start == line + 1,
{
    crate::text::lemma_line_number_of_line(buf, line);
}

/// `m` is the fuzzy candidate for line `line` (0-based) of `buf`: it
/// describes the whole line, scored by its similarity to `pattern`.
pub open spec fn is_fuzzy_candidate(
    m: MatchInfo,
    buf: Seq<char>,
    ordinal: int,
    line: int,
    pattern: Seq<char>,
    count: int,
) -> bool {
    &&& describes(m, buf, ordinal, line_spans(buf)[line].0, line_spans(buf)[line].1, count)
    &&& m.similarity_score == similarity(line_text(buf, line), pattern)
    &&& m.preview@ == line_text(buf, line) + " -> (fuzzy match)"@
}

/// `r` holds the fuzzy candidates of `buf` for `pattern`, numbered from one.
pub open spec fn fuzzy_candidates(
    r: Seq<MatchInfo>,
    buf: Seq<char>,
    pattern: Seq<char>,
    threshold: Ratio,
    count: int,
    cap: nat,
) -> bool {
    let hits = fuzzy_lines(buf, pattern, threshold, 0, cap);
    &&& r.len() == hits.len()
    &&& forall|i: int|
        0 <= i < r.len() ==> is_fuzzy_candidate(#[trigger] r[i], buf, i + 1, hits[i], pattern, count)
}

/// The fuzzy candidates of `buf` for `pattern`: the lines whose similarity
/// to the pattern reaches the threshold, top to bottom, at most
/// `max_matches` of them.
pub fn find_fuzzy_matches(
    buf: &[char],
    pattern: &[char],
    threshold: &Ratio,
    context_lines: usize,
    max_matches: usize,
) -> (r: Vec<MatchInfo>)
    requires
        buf.len() < usize::MAX,
    ensures
        fuzzy_candidates(
            r@,
            buf@,
            pattern@,
            *threshold,
            context_lines as int,
            max_matches as nat,
        ),
{
    let spans = split_line_spans(buf);
    let pattern_text = from_chars(pattern);
    let mut r: Vec<MatchInfo> = Vec::new();
    let ghost mut hits: Seq<int> = Seq::empty();
    let mut i: usize = 0;
    assert(spans_view(spans@).len() == spans.len());
    while i < spans.len() && r.len() < max_matches
        invariant
            i <= spans.len(),
            r.len() <= max_matches,
            r.len() == hits.len(),
            buf.len() < usize::MAX,
            pattern_text@ == pattern@,
            spans_view(spans@) == line_spans(buf@),
            spans.len() == line_spans(buf@).len(),
            forall|j: int|
                0 <= j < spans.len() ==> (#[trigger] spans[j]).0 <= spans[j].1 <= buf.len(),
            fuzzy_lines(buf@, pattern@, *threshold, 0, max_matches as nat) == hits + fuzzy_lines(
                buf@,
                pattern@,
                *threshold,
                i as int,
                (max_matches - r.len()) as nat,
            ),
            forall|j: int|
                0 <= j < r.len() ==> is_fuzzy_candidate(
                    #[trigger] r[j],
                    buf@,
                    j + 1,
                    hits[j],
                    pattern@,
                    context_lines as int,
                ),
        decreases spans.len() - i,
    {
        let sp = spans[i];
        assert(line_spans(buf@)[i as int] == (sp.0 as int, sp.1 as int));
        let line = slice_to_vec(buf, sp.0, sp.1);
        let line_str = from_chars(line.as_slice());
        let score = calculate_similarity(line_str.as_str(), pattern_text.as_str());
        if score.at_least(threshold) {
            let base = create_match_info(buf, &spans, sp.0, sp.1, r.len() + 1, context_lines);
            let mut preview: Vec<char> = Vec::new();
            extend_chars(&mut preview, line.as_slice());
            push_str(&mut preview, " -> (fuzzy match)");
            let m = MatchInfo {
                index: base.index,
                line_start: base.line_start,
                line_end: base.line_end,
                char_start: base.char_start,
                char_end: base.char_end,
                matched_text: base.matched_text,
                context_before: base.context_before,
                context_after: base.context_after,
                similarity_score: score,
                preview: from_chars(preview.as_slice()),
            };
            proof {
                hits = hits.push(i as int);
            }
            r.push(m);
        }
        i += 1;
    }
    proof {
        assert(fuzzy_lines(buf@, pattern@, *threshold, i as int, (max_matches - r.len()) as nat)
            == Seq::<int>::empty());
        assert(hits + Seq::<int>::empty() == hits);
    }
    r
}


/// The ranges of the first `cap` literal occurrences of `pattern` in `buf`.
pub open spec fn literal_ranges(buf: Seq<char>, pattern: Seq<char>, cap: nat) -> Seq<(int, int)> {
    occurrences(buf, pattern, 0, cap).map_values(|p: int| (p, p + pattern.len()))
}

/// The pattern handed to the regular-expression engine: the normalized
/// pattern, marked case-insensitive when case is ignored.
pub open spec fn regex_pattern(pattern: Seq<char>, ignore_case: bool) -> Seq<char> {
    if ignore_case {
        "(?i)"@ + pattern
    } else {
        pattern
    }
}

/// What `find_matches` owes for the normalized buffer `buf` and the
/// normalized pattern `pattern`: an error for a buffer too large to index;
/// else the literal candidates if there are any;
/// else, with `regex` set, an error for a pattern that does not compile and
/// the regular-expression candidates if there are any; else, with `fuzzy`
/// set, the fuzzy candidates; else nothing.
pub open spec fn is_find_result(
    r: Result<Vec<MatchInfo>, ToolError>,
    buf: Seq<char>,
    pattern: Seq<char>,
    options: MatchingOptions,
    ignore_case: bool,
) -> bool {
    let count = options.context_lines as int;
    let cap = options.max_matches as nat;
    let literal = literal_ranges(buf, pattern, cap);
    let source = regex_pattern(pattern, ignore_case);
    let by_regex = char_spans(buf, regex_spans(source, buf), cap);
    if buf.len() >= usize::MAX {
        r matches Err(ToolError::InvalidArgs { message }) && message@
            == "content is too large to index"@
    } else if literal.len() > 0 {
        r matches Ok(v) && exact_candidates(v@, buf, literal, count)
    } else if options.regex && !regex_compiles(source) {
        r matches Err(ToolError::Regex(cause)) && compiled(source) == Err::<
            regex::Regex,
            regex::Error,
        >(cause)
    } else if options.regex && by_regex.len() > 0 {
        r matches Ok(v) && exact_candidates(v@, buf, by_regex, count)
    } else if options.fuzzy {
        r matches Ok(v) && fuzzy_candidates(v@, buf, pattern, options.fuzzy_threshold, count, cap)
    } else {
        r matches Ok(v) && v.len() == 0
    }
}

/// The line ranges of the fuzzy candidates.
pub open spec fn fuzzy_ranges(
    buf: Seq<char>,
    pattern: Seq<char>,
    threshold: Ratio,
    cap: nat,
) -> Seq<(int, int)> {
    fuzzy_lines(buf, pattern, threshold, 0, cap).map_values(|i: int| line_spans(buf)[i])
}

/// Whether `find_matches` reports an error: the buffer cannot be indexed,
/// or nothing occurs literally and the pattern, wanted as a regular
/// expression, does not compile.
pub open spec fn find_fails(
    buf: Seq<char>,
    pattern: Seq<char>,
    options: MatchingOptions,
    ignore_case: bool,
) -> bool {
    ||| buf.len() >= usize::MAX
    ||| (literal_ranges(buf, pattern, options.max_matches as nat).len() == 0 && options.regex
        && !regex_compiles(regex_pattern(pattern, ignore_case)))
}

/// The ranges of the candidates that `find_matches` reports, in order.
pub open spec fn candidate_ranges(
    buf: Seq<char>,
    pattern: Seq<char>,
    options: MatchingOptions,
    ignore_case: bool,
) -> Seq<(int, int)> {
    let cap = options.max_matches as nat;
    let literal = literal_ranges(buf, pattern, cap);
    let by_regex = char_spans(buf, regex_spans(regex_pattern(pattern, ignore_case), buf), cap);
    if literal.len() > 0 {
        literal
    } else if options.regex && by_regex.len() > 0 {
        by_regex
    } else if options.fuzzy {
        fuzzy_ranges(buf, pattern, options.fuzzy_threshold, cap)
    } else {
        Seq::empty()
    }
}

/// `v` holds one candidate for each of `ranges`, in order and numbered from
/// one, each describing its range of `buf`.
pub open spec fn describes_all(
    v: Seq<MatchInfo>,
    buf: Seq<char>,
    ranges: Seq<(int, int)>,
    count: int,
) -> bool {
    &&& v.len() == ranges.len()
    &&& forall|i: int|
        0 <= i < v.len() ==> describes(#[trigger] v[i], buf, i + 1, ranges[i].0, ranges[i].1, count)
}

/// Finds the candidates for `pattern` in `content`. Both are normalized
/// first, and every offset, line number and text of a candidate refers to
/// the normalized content. Literal occurrences come first; the regular
/// expression is tried only when nothing occurs literally, and whole-line
/// fuzzy matches only when both found nothing.
pub fn find_matches(
    content: &str,
    pattern: &str,
    options: &MatchingOptions,
    norm_options: &NormalizationOptions,
) -> (r: Result<Vec<MatchInfo>, ToolError>)
    ensures
        is_find_result(
            r,
            normalize(content@, *norm_options),
            normalize(pattern@, *norm_options),
            *options,
            norm_options.ignore_case,
        ),
        r is Err <==> find_fails(
            normalize(content@, *norm_options),
            normalize(pattern@, *norm_options),
            *options,
            norm_options.ignore_case,
        ),
        r matches Ok(v) ==> describes_all(
            v@,
            normalize(content@, *norm_options),
            candidate_ranges(
                normalize(content@, *norm_options),
                normalize(pattern@, *norm_options),
                *options,
                norm_options.ignore_case,
            ),
            options.context_lines as int,
        ),
{
    let raw = crate::text::to_chars(content);
    let raw_pattern = crate::text::to_chars(pattern);
    let buf = normalize_chars(raw.as_slice(), norm_options);
    let pat = normalize_chars(raw_pattern.as_slice(), norm_options);
    if buf.len() == usize::MAX {
        return Err(
            ToolError::InvalidArgs { message: String::from_str("content is too large to index") },
        );
    }
    let literal = literal_matches(buf.as_slice(), pat.as_slice(), options.context_lines, options.max_matches);
    if literal.len() > 0 {
        return Ok(literal);
    }
    if options.regex {
        let pat_text = from_chars(pat.as_slice());
        let source = if norm_options.ignore_case {
            let mut s = String::from_str("(?i)");
            s.append(pat_text.as_str());
            s
        } else {
            pat_text
        };
        let buf_text = from_chars(buf.as_slice());
        match regex::Regex::new(source.as_str()) {
            Err(e) => {
                return Err(ToolError::Regex(e));
            },
            Ok(re) => {
                let byte_spans = regex_find_all(&re, buf_text.as_str());
                let found = regex_candidates(
                    buf_text.as_str(),
                    &byte_spans,
                    options.context_lines,
                    options.max_matches,
                );
                if found.len() > 0 {
                    return Ok(found);
                }
            },
        }
    }
    if options.fuzzy {
        return Ok(
            find_fuzzy_matches(
                buf.as_slice(),
                pat.as_slice(),
                &options.fuzzy_threshold,
                options.context_lines,
                options.max_matches,
            ),
        );
    }
    Ok(Vec::new())
}



/// Fuzzy matching is a fallback: where the pattern occurs literally, or,
/// with `regex` set, the regular expression matches, the candidates are
/// those occurrences or matches, whether fuzzy matching is enabled or not
/// and whatever its threshold is.
pub proof fn lemma_fuzzy_is_a_fallback(
    buf: Seq<char>,
    pattern: Seq<char>,
    options: MatchingOptions,
    other: MatchingOptions,
    ignore_case: bool,
)
    requires
        other.regex == options.regex,
        other.max_matches == options.max_matches,
        literal_ranges(buf, pattern, options.max_matches as nat).len() > 0 || (options.regex
            && char_spans(
            buf,
            regex_spans(regex_pattern(pattern, ignore_case), buf),
            options.max_matches as nat,
        ).len() > 0),
    ensures
        candidate_ranges(buf, pattern, options, ignore_case) == candidate_ranges(
            buf,
            pattern,
            other,
            ignore_case,
        ),
        candidate_ranges(buf, pattern, options, ignore_case) == if literal_ranges(
            buf,
            pattern,
            options.max_matches as nat,
        ).len() > 0 {
            literal_ranges(buf, pattern, options.max_matches as nat)
        } else {
            char_spans(
                buf,
                regex_spans(regex_pattern(pattern, ignore_case), buf),
                options.max_matches as nat,
            )
        },
{
}

} // verus!
