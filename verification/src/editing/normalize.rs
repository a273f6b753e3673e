//! Text normalization applied before matching.

use crate::text::{
    extend_chars, from_chars, is_whitespace, is_whitespace_char, lemma_next_newline,
    lemma_trimmed_end, next_newline, slice_to_vec, to_chars, trim_end, trim_end_index,
    trimmed_end,
};
use vstd::prelude::*;

verus! {

/// Which transforms `normalize_text` applies.
#[derive(Debug, Clone, Copy)]
pub struct NormalizationOptions {
    /// Turn CRLF and lone CR into LF.
    pub normalize_eol: bool,
    /// Strip trailing white space from every line.
    pub trim_lines: bool,
    /// Collapse every run of white space into one space.
    pub normalize_whitespace: bool,
    /// Fold the text to lower case.
    pub ignore_case: bool,
}

impl Default for NormalizationOptions {
    fn default() -> (r: Self)
        ensures
            r.normalize_eol,
            !r.trim_lines,
            !r.normalize_whitespace,
            !r.ignore_case,
    {
        NormalizationOptions {
            normalize_eol: true,
            trim_lines: false,
            normalize_whitespace: false,
            ignore_case: false,
        }
    }
}

/// `s` with every CRLF and every lone CR replaced by LF.
pub open spec fn unify_eol(s: Seq<char>) -> Seq<char>
    decreases s.len(),
{
    if s.len() == 0 {
        s
    } else {
        let p = unify_eol(s.drop_last());
        let c = s.last();
        if c == '\r' {
            p.push('\n')
        } else if c == '\n' && s.len() >= 2 && s[s.len() - 2] == '\r' {
            p
        } else {
            p.push(c)
        }
    }
}

/// `s` from offset `from` on, with the trailing white space of every line
/// removed. Lines are separated by LF, and every LF is kept.
pub open spec fn trim_lines_from(s: Seq<char>, from: int) -> Seq<char>
    decreases s.len() - from,
{
    if from < 0 || from > s.len() {
        Seq::empty()
    } else {
        let k = next_newline(s, from);
        if from <= k < s.len() {
            trim_end(s.subrange(from, k)) + seq!['\n'] + trim_lines_from(s, k + 1)
        } else {
            trim_end(s.subrange(from, s.len() as int))
        }
    }
}

/// `s` with the trailing white space of every line removed.
pub open spec fn trim_lines(s: Seq<char>) -> Seq<char> {
    trim_lines_from(s, 0)
}

/// `s` with every run of white space replaced by a single space.
pub open spec fn collapse_whitespace(s: Seq<char>) -> Seq<char>
    decreases s.len(),
{
    if s.len() == 0 {
        s
    } else {
        let p = collapse_whitespace(s.drop_last());
        let c = s.last();
        if !is_whitespace(c) {
            p.push(c)
        } else if s.len() >= 2 && is_whitespace(s[s.len() - 2]) {
            p
        } else {
            p.push(' ')
        }
    }
}

/// What `str::to_lowercase` returns for the text `s`.
pub uninterp spec fn lowercase_of(s: Seq<char>) -> Seq<char>;

/// `str::to_lowercase`: the lower-case form of a string, as Unicode defines
/// it. The result depends on the text alone.
pub assume_specification[ str::to_lowercase ](s: &str) -> (r: String)
    ensures
        r@ == lowercase_of(s@),
;

/// The transforms that `o` enables, applied to `s` in their fixed order:
/// line endings, trailing white space, white-space runs, case.
pub open spec fn normalize(s: Seq<char>, o: NormalizationOptions) -> Seq<char> {
    let a = if o.normalize_eol {
        unify_eol(s)
    } else {
        s
    };
    let b = if o.trim_lines {
        trim_lines(a)
    } else {
        a
    };
    let c = if o.normalize_whitespace {
        collapse_whitespace(b)
    } else {
        b
    };
    if o.ignore_case {
        lowercase_of(c)
    } else {
        c
    }
}

/// Replaces every CRLF and every lone CR by LF.
pub fn normalize_eol_chars(buf: &[char]) -> (r: Vec<char>)
    ensures
        r@ == unify_eol(buf@),
{
    let mut r: Vec<char> = Vec::new();
    let mut i: usize = 0;
    assert(buf@.take(0) == Seq::<char>::empty());
    while i < buf.len()
        invariant
            i <= buf.len(),
            r@ == unify_eol(buf@.take(i as int)),
        decreases buf.len() - i,
    {
        let c = buf[i];
        assert(buf@.take(i + 1).drop_last() == buf@.take(i as int));
        if c == '\r' {
            r.push('\n');
        } else if c == '\n' && i >= 1 && buf[i - 1] == '\r' {
        } else {
            r.push(c);
        }
        i += 1;
    }
    assert(buf@.take(buf.len() as int) == buf@);
    r
}

/// Strips the trailing white space of every line, keeping every LF.
pub fn trim_lines_chars(buf: &[char]) -> (r: Vec<char>)
    ensures
        r@ == trim_lines(buf@),
{
    let mut r: Vec<char> = Vec::new();
    let n = buf.len();
    let mut start: usize = 0;
    let mut i: usize = 0;
    while i < n
        invariant
            n == buf.len(),
            start <= i <= n,
            trim_lines(buf@) == r@ + trim_lines_from(buf@, start as int),
            next_newline(buf@, start as int) == next_newline(buf@, i as int),
        decreases n - i,
    {
        if buf[i] == '\n' {
            let e = trim_end_index(buf, start, i);
            let ghost before = r@;
            let piece = slice_to_vec(buf, start, e);
            extend_chars(&mut r, piece.as_slice());
            r.push('\n');
            proof {
                assert(next_newline(buf@, start as int) == i);
                assert(buf@.subrange(start as int, e as int) == trim_end(
                    buf@.subrange(start as int, i as int),
                ));
                assert(r@ == before + trim_end(buf@.subrange(start as int, i as int)) + seq!['\n']);
            }
            start = i + 1;
        }
        i += 1;
    }
    let e = trim_end_index(buf, start, n);
    let piece = slice_to_vec(buf, start, e);
    let ghost before = r@;
    extend_chars(&mut r, piece.as_slice());
    proof {
        assert(next_newline(buf@, n as int) == n);
        assert(buf@.subrange(start as int, e as int) == trim_end(
            buf@.subrange(start as int, n as int),
        ));
    }
    r
}

/// Replaces every run of white space by a single space.
pub fn collapse_whitespace_chars(buf: &[char]) -> (r: Vec<char>)
    ensures
        r@ == collapse_whitespace(buf@),
{
    let mut r: Vec<char> = Vec::new();
    let mut i: usize = 0;
    assert(buf@.take(0) == Seq::<char>::empty());
    while i < buf.len()
        invariant
            i <= buf.len(),
            r@ == collapse_whitespace(buf@.take(i as int)),
        decreases buf.len() - i,
    {
        let c = buf[i];
        assert(buf@.take(i + 1).drop_last() == buf@.take(i as int));
        if !is_whitespace_char(c) {
            r.push(c);
        } else if i >= 1 && is_whitespace_char(buf[i - 1]) {
        } else {
            r.push(' ');
        }
        i += 1;
    }
    assert(buf@.take(buf.len() as int) == buf@);
    r
}

/// Applies the transforms that `options` enables, in their fixed order.
pub fn normalize_chars(buf: &[char], options: &NormalizationOptions) -> (r: Vec<char>)
    ensures
        r@ == normalize(buf@, *options),
{
    let a = if options.normalize_eol {
        normalize_eol_chars(buf)
    } else {
        slice_to_vec(buf, 0, buf.len())
    };
    assert(buf@.subrange(0, buf.len() as int) == buf@);
    let b = if options.trim_lines {
        trim_lines_chars(a.as_slice())
    } else {
        a
    };
    let c = if options.normalize_whitespace {
        collapse_whitespace_chars(b.as_slice())
    } else {
        b
    };
    if options.ignore_case {
        let s = from_chars(c.as_slice());
        let lower = s.as_str().to_lowercase();
        to_chars(lower.as_str())
    } else {
        c
    }
}

/// Normalizes `text` for matching: the transforms that `options` enables,
/// in their fixed order.
pub fn normalize_text(text: &str, options: &NormalizationOptions) -> (r: String)
    ensures
        r@ == normalize(text@, *options),
{
    let chars = to_chars(text);
    let out = normalize_chars(chars.as_slice(), options);
    from_chars(out.as_slice())
}

/// Replaces every CRLF and every lone CR in `text` by LF.
pub fn normalize_eol(text: &str) -> (r: String)
    ensures
        r@ == unify_eol(text@),
{
    let chars = to_chars(text);
    let out = normalize_eol_chars(chars.as_slice());
    from_chars(out.as_slice())
}


/// No character of `s` is a carriage return.
pub open spec fn no_carriage_return(s: Seq<char>) -> bool {
    forall|i: int| 0 <= i < s.len() ==> s[i] != '\r'
}

/// Unifying line endings leaves no carriage return behind.
pub proof fn lemma_unify_eol_no_cr(s: Seq<char>)
    ensures
        no_carriage_return(unify_eol(s)),
    decreases s.len(),
{
    if s.len() > 0 {
        lemma_unify_eol_no_cr(s.drop_last());
    }
}

/// Text without carriage returns is left as it is.
pub proof fn lemma_unify_eol_fixed(s: Seq<char>)
    requires
        no_carriage_return(s),
    ensures
        unify_eol(s) == s,
    decreases s.len(),
{
    if s.len() > 0 {
        lemma_unify_eol_fixed(s.drop_last());
        assert(s.drop_last().push(s.last()) == s);
    }
}

/// Unifying line endings twice gives what unifying them once gives.
pub proof fn lemma_normalize_eol_idempotent(s: Seq<char>)
    ensures
        unify_eol(unify_eol(s)) == unify_eol(s),
{
    lemma_unify_eol_no_cr(s);
    lemma_unify_eol_fixed(unify_eol(s));
}

/// Every white-space character of `s` is a space, and no two stand side by
/// side.
pub open spec fn single_spaced(s: Seq<char>) -> bool {
    &&& forall|i: int| 0 <= i < s.len() && is_whitespace(#[trigger] s[i]) ==> s[i] == ' '
    &&& forall|i: int|
        0 < i < s.len() && is_whitespace(#[trigger] s[i]) ==> !is_whitespace(s[i - 1])
}

/// Collapsed text is single-spaced, and ends in white space exactly when the
/// text it came from does.
pub proof fn lemma_collapse_single_spaced(s: Seq<char>)
    ensures
        single_spaced(collapse_whitespace(s)),
        collapse_whitespace(s).len() == 0 <==> s.len() == 0,
        s.len() > 0 ==> (is_whitespace(collapse_whitespace(s).last()) <==> is_whitespace(
            s.last(),
        )),
    decreases s.len(),
{
    if s.len() > 0 {
        let t = s.drop_last();
        lemma_collapse_single_spaced(t);
        let p = collapse_whitespace(t);
        let r = collapse_whitespace(s);
        if t.len() > 0 {
            assert(t.last() == s[s.len() - 2]);
        }
        assert forall|i: int| 0 < i < r.len() && is_whitespace(#[trigger] r[i]) implies !is_whitespace(
            r[i - 1],
        ) by {
            if i < p.len() {
                assert(r[i] == p[i]);
                assert(r[i - 1] == p[i - 1]);
            }
        }
        assert forall|i: int| 0 <= i < r.len() && is_whitespace(#[trigger] r[i]) implies r[i]
            == ' ' by {
            if i < p.len() {
                assert(r[i] == p[i]);
            }
        }
    }
}

/// Single-spaced text is left as it is.
pub proof fn lemma_collapse_fixed(s: Seq<char>)
    requires
        single_spaced(s),
    ensures
        collapse_whitespace(s) == s,
    decreases s.len(),
{
    if s.len() > 0 {
        let t = s.drop_last();
        assert forall|i: int| 0 <= i < t.len() && is_whitespace(#[trigger] t[i]) implies t[i]
            == ' ' by {
            assert(t[i] == s[i]);
        }
        assert forall|i: int| 0 < i < t.len() && is_whitespace(#[trigger] t[i]) implies !is_whitespace(
            t[i - 1],
        ) by {
            assert(t[i] == s[i]);
            assert(t[i - 1] == s[i - 1]);
        }
        lemma_collapse_fixed(t);
        assert(t.push(s.last()) == s);
        if is_whitespace(s.last()) {
            assert(s[s.len() - 1] == ' ');
            if s.len() >= 2 {
                assert(!is_whitespace(s[s.len() - 1 - 1]));
            }
        }
    }
}

/// Collapsing white space twice gives what collapsing it once gives.
pub proof fn lemma_collapse_whitespace_idempotent(s: Seq<char>)
    ensures
        collapse_whitespace(collapse_whitespace(s)) == collapse_whitespace(s),
{
    lemma_collapse_single_spaced(s);
    lemma_collapse_fixed(collapse_whitespace(s));
}


/// No character of `s` is a line feed.
pub open spec fn no_line_feed(s: Seq<char>) -> bool {
    forall|i: int| 0 <= i < s.len() ==> s[i] != '\n'
}

/// The first line feed of a text is found where it stands, whatever comes
/// before the place where the search starts.
proof fn lemma_next_newline_shift(s: Seq<char>, d: int, i: int)
    requires
        0 <= d,
        0 <= i,
        i + d <= s.len(),
    ensures
        next_newline(s.skip(d), i) + d == next_newline(s, i + d),
    decreases s.len() - d - i,
{
    let t = s.skip(d);
    if i < t.len() {
        assert(t[i] == s[i + d]);
        if t[i] != '\n' {
            lemma_next_newline_shift(s, d, i + 1);
        }
    }
}

/// Trimming the lines of a text from an offset on is trimming the lines of
/// what stands from that offset on.
proof fn lemma_trim_lines_shift(s: Seq<char>, from: int)
    requires
        0 <= from <= s.len(),
    ensures
        trim_lines_from(s, from) == trim_lines(s.skip(from)),
    decreases s.len() - from,
{
    let t = s.skip(from);
    lemma_next_newline_shift(s, from, 0);
    lemma_next_newline(s, from);
    let k = next_newline(s, from);
    let kt = next_newline(t, 0);
    assert(kt + from == k);
    if k < s.len() {
        assert(t.subrange(0, kt) == s.subrange(from, k));
        lemma_trim_lines_shift(s, k + 1);
        lemma_trim_lines_shift(t, kt + 1);
        assert(t.skip(kt + 1) == s.skip(k + 1));
    } else {
        assert(t.subrange(0, t.len() as int) == s.subrange(from, s.len() as int));
    }
}

/// Trimming what is trimmed already changes nothing, and trimming removes
/// characters only at the end.
proof fn lemma_trim_end_idempotent(a: Seq<char>)
    ensures
        trim_end(trim_end(a)) == trim_end(a),
        trim_end(a).len() <= a.len(),
        forall|i: int| 0 <= i < trim_end(a).len() ==> trim_end(a)[i] == a[i],
{
    lemma_trimmed_end(a);
    let t = trim_end(a);
    if t.len() > 0 {
        assert(t.last() == a[trimmed_end(a) - 1]);
        assert(!is_whitespace(t.last()));
        assert(trimmed_end(t) == t.len());
    } else {
        assert(trimmed_end(t) == 0);
    }
    assert(t.take(t.len() as int) == t);
}

/// Trimming the lines of a line, a line feed and more text trims the line
/// and goes on behind the line feed.
proof fn lemma_trim_lines_concat(a: Seq<char>, r: Seq<char>)
    requires
        no_line_feed(a),
    ensures
        trim_lines(a + seq!['\n'] + r) == trim_end(a) + seq!['\n'] + trim_lines(r),
{
    let x = a + seq!['\n'] + r;
    lemma_next_newline(x, 0);
    let k = next_newline(x, 0);
    assert(x[a.len() as int] == '\n');
    if k < a.len() {
        assert(x[k] == a[k]);
    }
    assert(k == a.len());
    assert(x.subrange(0, k) == a);
    lemma_trim_lines_shift(x, k + 1);
    assert(x.skip(k + 1) == r);
}

/// Trimming the lines of a text without line feeds trims its end.
proof fn lemma_trim_lines_single(a: Seq<char>)
    requires
        no_line_feed(a),
    ensures
        trim_lines(a) == trim_end(a),
{
    lemma_next_newline(a, 0);
    let k = next_newline(a, 0);
    if k < a.len() {
        assert(a[k] == '\n');
    }
    assert(a.subrange(0, a.len() as int) == a);
}

/// Trimming lines that are trimmed already changes nothing.
proof fn lemma_trim_lines_from_idempotent(s: Seq<char>, from: int)
    requires
        0 <= from <= s.len(),
    ensures
        trim_lines(trim_lines_from(s, from)) == trim_lines_from(s, from),
    decreases s.len() - from,
{
    lemma_next_newline(s, from);
    let k = next_newline(s, from);
    if k < s.len() {
        let seg = s.subrange(from, k);
        let rest = trim_lines_from(s, k + 1);
        lemma_trim_end_idempotent(seg);
        assert(no_line_feed(trim_end(seg))) by {
            assert forall|i: int| 0 <= i < trim_end(seg).len() implies trim_end(seg)[i] != '\n' by {
                assert(trim_end(seg)[i] == seg[i]);
                assert(seg[i] == s[from + i]);
            }
        }
        lemma_trim_lines_concat(trim_end(seg), rest);
        lemma_trim_lines_from_idempotent(s, k + 1);
    } else {
        let seg = s.subrange(from, s.len() as int);
        lemma_trim_end_idempotent(seg);
        assert(no_line_feed(trim_end(seg))) by {
            assert forall|i: int| 0 <= i < trim_end(seg).len() implies trim_end(seg)[i] != '\n' by {
                assert(trim_end(seg)[i] == seg[i]);
                assert(seg[i] == s[from + i]);
            }
        }
        lemma_trim_lines_single(trim_end(seg));
    }
}

/// Trimming the lines of a text twice gives what trimming them once gives.
pub proof fn lemma_trim_lines_idempotent(s: Seq<char>)
    ensures
        trim_lines(trim_lines(s)) == trim_lines(s),
{
    lemma_trim_lines_from_idempotent(s, 0);
}

/// Trimming lines brings in no carriage return.
proof fn lemma_trim_lines_no_cr(s: Seq<char>, from: int)
    requires
        0 <= from <= s.len(),
        no_carriage_return(s),
    ensures
        no_carriage_return(trim_lines_from(s, from)),
    decreases s.len() - from,
{
    lemma_next_newline(s, from);
    let k = next_newline(s, from);
    let end = if k < s.len() {
        k
    } else {
        s.len() as int
    };
    let seg = s.subrange(from, end);
    lemma_trim_end_idempotent(seg);
    assert forall|i: int| 0 <= i < trim_end(seg).len() implies trim_end(seg)[i] != '\r' by {
        assert(trim_end(seg)[i] == seg[i]);
        assert(seg[i] == s[from + i]);
    }
    if k < s.len() {
        lemma_trim_lines_no_cr(s, k + 1);
        let rest = trim_lines_from(s, k + 1);
        let out = trim_end(seg) + seq!['\n'] + rest;
        assert forall|i: int| 0 <= i < out.len() implies out[i] != '\r' by {
            if i < trim_end(seg).len() {
                assert(out[i] == trim_end(seg)[i]);
            } else if i > trim_end(seg).len() {
                assert(out[i] == rest[i - trim_end(seg).len() - 1]);
            }
        }
    }
}

/// Normalizing text that is normalized already changes nothing, as long as
/// case is not folded and lines are not both trimmed and collapsed: with
/// both, a space that collapsing leaves at the end of the text is trimmed
/// by the next pass.
pub proof fn lemma_normalize_idempotent(s: Seq<char>, o: NormalizationOptions)
    requires
        !o.ignore_case,
        !(o.trim_lines && o.normalize_whitespace),
    ensures
        normalize(normalize(s, o), o) == normalize(s, o),
{
    let a = if o.normalize_eol {
        unify_eol(s)
    } else {
        s
    };
    if o.normalize_eol {
        lemma_unify_eol_no_cr(s);
    }
    if o.trim_lines {
        lemma_trim_lines_idempotent(a);
        if o.normalize_eol {
            lemma_trim_lines_no_cr(a, 0);
            lemma_unify_eol_fixed(trim_lines(a));
        }
    } else if o.normalize_whitespace {
        lemma_collapse_whitespace_idempotent(a);
        if o.normalize_eol {
            lemma_collapse_single_spaced(a);
            let c = collapse_whitespace(a);
            assert forall|i: int| 0 <= i < c.len() implies c[i] != '\r' by {
                if c[i] == '\r' {
                    assert(is_whitespace(c[i]));
                }
            }
            lemma_unify_eol_fixed(c);
        }
    } else if o.normalize_eol {
        lemma_unify_eol_fixed(a);
    }
}

} // verus!
