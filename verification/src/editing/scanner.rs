//! A lexical scanner that finds the full span of a named function:
//! signature, body, and the attribute and doc-comment lines right above it.

use crate::text::{
    from_chars, join_lines, lemma_count_newlines_monotone, lemma_line_of_bound, line_number_at,
    line_of, line_spans, lines_of, matches_at, matches_at_exec, next_newline, remove_lines,
    spans_view, split_line_spans, to_chars, trim_start, trim_start_index,
};
use vstd::prelude::*;

verus! {

/// Whether `c` is a space or a tab.
pub open spec fn is_blank(c: char) -> bool {
    c == ' ' || c == '\t'
}

/// Whether `c` can be part of a name: an ASCII letter or digit, an
/// underscore, or any character beyond ASCII.
pub open spec fn is_word_char(c: char) -> bool {
    let u = c as u32;
    ||| 0x30 <= u <= 0x39
    ||| 0x41 <= u <= 0x5A
    ||| 0x61 <= u <= 0x7A
    ||| u == 0x5F
    ||| u >= 0x80
}

fn is_word_char_exec(c: char) -> (r: bool)
    ensures
        r == is_word_char(c),
{
    let u: u32 = c as u32;
    (0x30 <= u && u <= 0x39) || (0x41 <= u && u <= 0x5A) || (0x61 <= u && u <= 0x7A) || u == 0x5F
        || u >= 0x80
}

/// The offset of the first character at or after `i` that is no blank.
pub open spec fn skip_blanks(s: Seq<char>, i: int) -> int
    decreases s.len() - i,
{
    if 0 <= i < s.len() && is_blank(s[i]) {
        skip_blanks(s, i + 1)
    } else {
        i
    }
}

/// Where the scan stands after an optional modifier: after `word` and the
/// blanks behind it when `word` stands at `i` with at least one blank
/// behind it, and at `i` otherwise.
pub open spec fn skip_modifier(s: Seq<char>, i: int, word: Seq<char>) -> int {
    if matches_at(s, word, i) && i + word.len() < s.len() && is_blank(s[i + word.len()]) {
        skip_blanks(s, i + word.len())
    } else {
        i
    }
}

/// Whether a name ends at offset `q`: of the characters before and at `q`,
/// exactly one is a word character.
pub open spec fn word_boundary(s: Seq<char>, q: int) -> bool {
    let before = 0 < q <= s.len() && is_word_char(s[q - 1]);
    let after = 0 <= q < s.len() && is_word_char(s[q]);
    before != after
}

/// Where the declaration of `name` that starts on the line at `line_start`
/// ends: blanks, then the optional modifiers `pub`, `async`, `const` and
/// `unsafe` in this order, then `fn`, blanks, and the name, which must end
/// at a word boundary. `None` when the line does not start so.
pub open spec fn declaration_end(s: Seq<char>, name: Seq<char>, line_start: int) -> Option<int> {
    let a = skip_blanks(s, line_start);
    let b = skip_modifier(s, a, "pub"@);
    let c = skip_modifier(s, b, "async"@);
    let d = skip_modifier(s, c, "const"@);
    let e = skip_modifier(s, d, "unsafe"@);
    if matches_at(s, "fn"@, e) && e + 2 < s.len() && is_blank(s[e + 2]) {
        let f = skip_blanks(s, e + 2);
        if matches_at(s, name, f) && word_boundary(s, f + name.len()) {
            Some(f + name.len())
        } else {
            None
        }
    } else {
        None
    }
}

/// The first line at or after the line starting at `pos` that declares
/// `name`: the offset where the line starts and the offset after the name.
pub open spec fn find_declaration_from(s: Seq<char>, name: Seq<char>, pos: int) -> Option<
    (int, int),
>
    decreases s.len() - pos,
{
    if pos < 0 || pos > s.len() {
        None
    } else {
        match declaration_end(s, name, pos) {
            Some(e) => Some((pos, e)),
            None => {
                let k = next_newline(s, pos);
                if pos <= k < s.len() {
                    find_declaration_from(s, name, k + 1)
                } else {
                    None
                }
            },
        }
    }
}

/// What the scanner is inside of.
#[derive(Debug, Clone, Copy, PartialEq, Eq, Structural)]
pub enum Lex {
    Code,
    Str,
    Chr,
    LineComment,
    BlockComment,
}

/// The character at `i`, or NUL beyond the end.
pub open spec fn char_at(s: Seq<char>, i: int) -> char {
    if 0 <= i < s.len() {
        s[i]
    } else {
        '\0'
    }
}

/// One step inside a string, a character literal or a comment: the state
/// after it and the number of characters consumed. A backslash in a literal
/// takes the next character with it; `*/` ends a block comment, a line feed
/// a line comment.
pub open spec fn inner_step(lex: Lex, c: char, next: char) -> (Lex, int) {
    match lex {
        Lex::LineComment => (
            if c == '\n' {
                Lex::Code
            } else {
                Lex::LineComment
            },
            1,
        ),
        Lex::BlockComment => if c == '*' && next == '/' {
            (Lex::Code, 2)
        } else {
            (Lex::BlockComment, 1)
        },
        Lex::Str => if c == '\\' {
            (Lex::Str, 2)
        } else if c == '"' {
            (Lex::Code, 1)
        } else {
            (Lex::Str, 1)
        },
        Lex::Chr => if c == '\\' {
            (Lex::Chr, 2)
        } else if c == '\'' {
            (Lex::Code, 1)
        } else {
            (Lex::Chr, 1)
        },
        Lex::Code => (Lex::Code, 1),
    }
}

/// Whether code at `c` enters a comment or a literal: the state entered and
/// the number of characters consumed.
pub open spec fn enter_step(c: char, next: char) -> Option<(Lex, int)> {
    if c == '/' && next == '/' {
        Some((Lex::LineComment, 2))
    } else if c == '/' && next == '*' {
        Some((Lex::BlockComment, 2))
    } else if c == '"' {
        Some((Lex::Str, 1))
    } else if c == '\'' {
        Some((Lex::Chr, 1))
    } else {
        None
    }
}

/// How the scan of a signature ends.
#[derive(Debug, Clone, Copy, PartialEq, Eq, Structural)]
pub enum SignatureEnd {
    /// The body opens with the brace at this offset.
    Body { at: usize },
    /// A semicolon ends the declaration: it has no body.
    Bodyless,
    /// The text ends before a body or a semicolon.
    Unfinished,
}

/// How the scan of a signature ends, with the offset as a mathematical
/// integer.
pub enum ScanEnd {
    Body(int),
    Bodyless,
    Unfinished,
}

impl View for SignatureEnd {
    type V = ScanEnd;

    open spec fn view(&self) -> ScanEnd {
        match *self {
            SignatureEnd::Body { at } => ScanEnd::Body(at as int),
            SignatureEnd::Bodyless => ScanEnd::Bodyless,
            SignatureEnd::Unfinished => ScanEnd::Unfinished,
        }
    }
}

/// The scan of a signature from offset `i` on, in state `lex` with the
/// given bracket depths. Outside comments and literals, round and angle
/// brackets are counted, a `>` right after `-` being an arrow and no
/// bracket. The first `{` at depth zero opens the body; a `;` at depth zero
/// before it ends a declaration without body.
pub open spec fn scan_signature(s: Seq<char>, i: int, lex: Lex, paren: int, angle: int) -> ScanEnd
    decreases s.len() - i,
{
    if i < 0 || i >= s.len() {
        ScanEnd::Unfinished
    } else {
        let c = s[i];
        let next = char_at(s, i + 1);
        if lex != Lex::Code {
            let step = inner_step(lex, c, next);
            if i + step.1 > s.len() {
                ScanEnd::Unfinished
            } else {
                scan_signature(s, i + step.1, step.0, paren, angle)
            }
        } else {
            match enter_step(c, next) {
                Some(step) => scan_signature(s, i + step.1, step.0, paren, angle),
                None => if c == '(' {
                    scan_signature(s, i + 1, lex, paren + 1, angle)
                } else if c == ')' {
                    scan_signature(s, i + 1, lex, paren - 1, angle)
                } else if c == '<' {
                    scan_signature(s, i + 1, lex, paren, angle + 1)
                } else if c == '>' {
                    if char_at(s, i - 1) != '-' && angle > 0 {
                        scan_signature(s, i + 1, lex, paren, angle - 1)
                    } else {
                        scan_signature(s, i + 1, lex, paren, angle)
                    }
                } else if c == ';' && paren == 0 && angle == 0 {
                    ScanEnd::Bodyless
                } else if c == '{' && paren == 0 && angle == 0 {
                    ScanEnd::Body(i)
                } else {
                    scan_signature(s, i + 1, lex, paren, angle)
                },
            }
        }
    }
}

/// The scan of a body from offset `j` on, in state `lex` with `depth`
/// braces open: the offset after the brace that closes the body, or `None`
/// when the text ends first. Braces inside comments and literals do not
/// count.
pub open spec fn scan_body(s: Seq<char>, j: int, lex: Lex, depth: int) -> Option<int>
    decreases s.len() - j,
{
    if j < 0 || j >= s.len() {
        None
    } else {
        let c = s[j];
        let next = char_at(s, j + 1);
        if lex != Lex::Code {
            let step = inner_step(lex, c, next);
            if j + step.1 > s.len() {
                None
            } else {
                scan_body(s, j + step.1, step.0, depth)
            }
        } else {
            match enter_step(c, next) {
                Some(step) => scan_body(s, j + step.1, step.0, depth),
                None => if c == '{' {
                    scan_body(s, j + 1, lex, depth + 1)
                } else if c == '}' {
                    if depth - 1 == 0 {
                        Some(j + 1)
                    } else {
                        scan_body(s, j + 1, lex, depth - 1)
                    }
                } else {
                    scan_body(s, j + 1, lex, depth)
                },
            }
        }
    }
}

/// The character range of the function `name`: from the start of the line
/// that declares it to the offset after the brace that closes its body.
/// `None` when no line declares it, when the declaration has no body, or
/// when the text ends before the body does.
pub open spec fn function_range(s: Seq<char>, name: Seq<char>) -> Option<(int, int)> {
    match find_declaration_from(s, name, 0) {
        None => None,
        Some(decl) => match scan_signature(s, decl.1, Lex::Code, 0, 0) {
            ScanEnd::Body(at) => match scan_body(s, at, Lex::Code, 0) {
                Some(end) => Some((decl.0, end)),
                None => None,
            },
            _ => None,
        },
    }
}

fn skip_blanks_exec(buf: &[char], i: usize) -> (r: usize)
    requires
        i <= buf.len(),
    ensures
        r == skip_blanks(buf@, i as int),
        i <= r <= buf.len(),
{
    let mut k: usize = i;
    while k < buf.len() && (buf[k] == ' ' || buf[k] == '\t')
        invariant
            i <= k <= buf.len(),
            skip_blanks(buf@, i as int) == skip_blanks(buf@, k as int),
        decreases buf.len() - k,
    {
        k += 1;
    }
    k
}

fn skip_modifier_exec(buf: &[char], i: usize, word: &str) -> (r: usize)
    requires
        i <= buf.len(),
    ensures
        r == skip_modifier(buf@, i as int, word@),
        i <= r <= buf.len(),
{
    let w = to_chars(word);
    if matches_at_exec(buf, w.as_slice(), i) {
        let after: usize = i + w.len();
        if after < buf.len() && (buf[after] == ' ' || buf[after] == '\t') {
            return skip_blanks_exec(buf, after);
        }
    }
    i
}

fn word_boundary_exec(buf: &[char], q: usize) -> (r: bool)
    ensures
        r == word_boundary(buf@, q as int),
{
    let before = 0 < q && q <= buf.len() && is_word_char_exec(buf[q - 1]);
    let after = q < buf.len() && is_word_char_exec(buf[q]);
    before != after
}

fn declaration_end_exec(buf: &[char], name: &[char], line_start: usize) -> (r: Option<usize>)
    requires
        line_start <= buf.len(),
    ensures
        match r {
            Some(e) => declaration_end(buf@, name@, line_start as int) == Some(e as int)
                && line_start <= e <= buf.len(),
            None => declaration_end(buf@, name@, line_start as int) is None,
        },
{
    let a = skip_blanks_exec(buf, line_start);
    let b = skip_modifier_exec(buf, a, "pub");
    let c = skip_modifier_exec(buf, b, "async");
    let d = skip_modifier_exec(buf, c, "const");
    let e = skip_modifier_exec(buf, d, "unsafe");
    let fn_word = to_chars("fn");
    proof {
        reveal_strlit("fn");
    }
    if matches_at_exec(buf, fn_word.as_slice(), e) && e + 2 < buf.len() && (buf[e + 2] == ' '
        || buf[e + 2] == '\t') {
        let f = skip_blanks_exec(buf, e + 2);
        if matches_at_exec(buf, name, f) && word_boundary_exec(buf, f + name.len()) {
            return Some(f + name.len());
        }
    }
    None
}

/// Finds the first line that declares the function `name`.
pub fn find_declaration(buf: &[char], name: &[char]) -> (r: Option<(usize, usize)>)
    ensures
        match r {
            Some(d) => find_declaration_from(buf@, name@, 0) == Some((d.0 as int, d.1 as int))
                && d.0 <= d.1 <= buf.len(),
            None => find_declaration_from(buf@, name@, 0) is None,
        },
{
    let mut pos: usize = 0;
    loop
        invariant
            pos <= buf.len(),
            find_declaration_from(buf@, name@, 0) == find_declaration_from(buf@, name@, pos as int),
        decreases buf.len() - pos,
    {
        match declaration_end_exec(buf, name, pos) {
            Some(e) => {
                return Some((pos, e));
            },
            None => {},
        }
        let mut k: usize = pos;
        while k < buf.len() && buf[k] != '\n'
            invariant
                pos <= k <= buf.len(),
                next_newline(buf@, pos as int) == next_newline(buf@, k as int),
            decreases buf.len() - k,
        {
            k += 1;
        }
        if k >= buf.len() {
            return None;
        }
        pos = k + 1;
    }
}

fn next_char(buf: &[char], i: usize) -> (c: char)
    requires
        i < buf.len(),
    ensures
        c == char_at(buf@, i + 1),
{
    if i + 1 < buf.len() {
        buf[i + 1]
    } else {
        '\0'
    }
}

fn inner_step_exec(lex: Lex, c: char, next: char) -> (r: (Lex, usize))
    ensures
        r.0 == inner_step(lex, c, next).0,
        r.1 == inner_step(lex, c, next).1,
        1 <= r.1 <= 2,
{
    match lex {
        Lex::LineComment => if c == '\n' {
            (Lex::Code, 1)
        } else {
            (Lex::LineComment, 1)
        },
        Lex::BlockComment => if c == '*' && next == '/' {
            (Lex::Code, 2)
        } else {
            (Lex::BlockComment, 1)
        },
        Lex::Str => if c == '\\' {
            (Lex::Str, 2)
        } else if c == '"' {
            (Lex::Code, 1)
        } else {
            (Lex::Str, 1)
        },
        Lex::Chr => if c == '\\' {
            (Lex::Chr, 2)
        } else if c == '\'' {
            (Lex::Code, 1)
        } else {
            (Lex::Chr, 1)
        },
        Lex::Code => (Lex::Code, 1),
    }
}

fn enter_step_exec(c: char, next: char) -> (r: Option<(Lex, usize)>)
    ensures
        match r {
            Some(st) => enter_step(c, next) == Some((st.0, st.1 as int)) && 1 <= st.1 <= 2,
            None => enter_step(c, next) is None,
        },
{
    if c == '/' && next == '/' {
        Some((Lex::LineComment, 2))
    } else if c == '/' && next == '*' {
        Some((Lex::BlockComment, 2))
    } else if c == '"' {
        Some((Lex::Str, 1))
    } else if c == '\'' {
        Some((Lex::Chr, 1))
    } else {
        None
    }
}

/// Scans a signature from the offset after the function's name to the
/// brace that opens its body.
pub fn find_body_start(buf: &[char], from: usize) -> (r: SignatureEnd)
    requires
        from <= buf.len(),
    ensures
        r@ == scan_signature(buf@, from as int, Lex::Code, 0, 0),
        r matches SignatureEnd::Body { at } ==> from <= at < buf.len(),
{
    let n = buf.len();
    let mut i: usize = from;
    let mut lex = Lex::Code;
    let mut paren: i128 = 0;
    let mut angle: i128 = 0;
    while i < n
        invariant
            n == buf.len(),
            from <= i,
            -(i as int) <= paren <= i,
            0 <= angle <= i,
            scan_signature(buf@, from as int, Lex::Code, 0, 0) == scan_signature(
                buf@,
                i as int,
                lex,
                paren as int,
                angle as int,
            ),
        decreases n - i,
    {
        let c = buf[i];
        let next = next_char(buf, i);
        if lex != Lex::Code {
            let st = inner_step_exec(lex, c, next);
            lex = st.0;
            if st.1 > n - i {
                return SignatureEnd::Unfinished;
            }
            i += st.1;
        } else {
            match enter_step_exec(c, next) {
                Some(st) => {
                    lex = st.0;
                    if st.1 > n - i {
                        return SignatureEnd::Unfinished;
                    }
                    i += st.1;
                },
                None => {
                    if c == '(' {
                        paren += 1;
                    } else if c == ')' {
                        paren -= 1;
                    } else if c == '<' {
                        angle += 1;
                    } else if c == '>' {
                        let arrow = i > 0 && buf[i - 1] == '-';
                        if !arrow && angle > 0 {
                            angle -= 1;
                        }
                    } else if c == ';' && paren == 0 && angle == 0 {
                        return SignatureEnd::Bodyless;
                    } else if c == '{' && paren == 0 && angle == 0 {
                        return SignatureEnd::Body { at: i };
                    }
                    i += 1;
                },
            }
        }
    }
    SignatureEnd::Unfinished
}

/// Scans a body from the brace that opens it to the brace that closes it.
pub fn find_body_end(buf: &[char], from: usize) -> (r: Option<usize>)
    requires
        from <= buf.len(),
    ensures
        match r {
            Some(end) => scan_body(buf@, from as int, Lex::Code, 0) == Some(end as int) && from
                < end <= buf.len(),
            None => scan_body(buf@, from as int, Lex::Code, 0) is None,
        },
{
    let n = buf.len();
    let mut j: usize = from;
    let mut lex = Lex::Code;
    let mut depth: i128 = 0;
    while j < n
        invariant
            n == buf.len(),
            from <= j,
            -(j as int) <= depth <= j,
            scan_body(buf@, from as int, Lex::Code, 0) == scan_body(
                buf@,
                j as int,
                lex,
                depth as int,
            ),
        decreases n - j,
    {
        let c = buf[j];
        let next = next_char(buf, j);
        if lex != Lex::Code {
            let st = inner_step_exec(lex, c, next);
            lex = st.0;
            if st.1 > n - j {
                return None;
            }
            j += st.1;
        } else {
            match enter_step_exec(c, next) {
                Some(st) => {
                    lex = st.0;
                    if st.1 > n - j {
                        return None;
                    }
                    j += st.1;
                },
                None => {
                    if c == '{' {
                        depth += 1;
                    } else if c == '}' {
                        if depth - 1 == 0 {
                            return Some(j + 1);
                        }
                        depth -= 1;
                    }
                    j += 1;
                },
            }
        }
    }
    None
}


/// Whether a line is an attribute or a doc comment: after its leading white
/// space it starts with `#[`, `///` or `//!`.
pub open spec fn is_attached_line(line: Seq<char>) -> bool {
    let t = trim_start(line);
    matches_at(t, "#["@, 0) || matches_at(t, "///"@, 0) || matches_at(t, "//!"@, 0)
}

/// The first line of the span that starts at line `line` (1-based) once
/// the attribute and doc-comment lines right above it are taken in.
pub open spec fn widen_start(lines: Seq<Seq<char>>, line: int) -> int
    decreases line,
{
    if 1 < line <= lines.len() + 1 && is_attached_line(lines[line - 2]) {
        widen_start(lines, line - 1)
    } else {
        line
    }
}

/// The lines that the function `name` spans, 1-based and inclusive: from
/// the first attribute or doc-comment line attached to its declaration to
/// the line of the brace that closes its body.
pub open spec fn function_span(s: Seq<char>, name: Seq<char>) -> Option<(int, int)> {
    match function_range(s, name) {
        None => None,
        Some(r) => Some((widen_start(lines_of(s), line_of(s, r.0)), line_of(s, r.1 - 1))),
    }
}

/// `lines` without the lines `first..=last` (1-based).
pub open spec fn without_lines(lines: Seq<Seq<char>>, first: int, last: int) -> Seq<Seq<char>> {
    lines.take(first - 1) + lines.skip(last)
}

/// A function removed from a source text.
#[derive(Debug)]
pub struct ScanResult {
    /// The remaining lines, joined by line feeds.
    pub content: String,
    /// The first line removed (1-based).
    pub start_line: usize,
    /// The last line removed (1-based).
    pub end_line: usize,
}

fn is_attached_line_exec(buf: &[char], span: (usize, usize)) -> (r: bool)
    requires
        span.0 <= span.1 <= buf.len(),
    ensures
        r == is_attached_line(buf@.subrange(span.0 as int, span.1 as int)),
{
    let b = trim_start_index(buf, span.0, span.1);
    let t = crate::text::slice_to_vec(buf, b, span.1);
    proof {
        let line = buf@.subrange(span.0 as int, span.1 as int);
        assert(t@ == trim_start(line));
    }
    let attr = to_chars("#[");
    let outer = to_chars("///");
    let inner = to_chars("//!");
    matches_at_exec(t.as_slice(), attr.as_slice(), 0) || matches_at_exec(
        t.as_slice(),
        outer.as_slice(),
        0,
    ) || matches_at_exec(t.as_slice(), inner.as_slice(), 0)
}

/// Removes the function `func_name` from `content` as whole lines: its
/// declaration, its body, and the attribute and doc-comment lines right
/// above it. Returns `None`, and leaves everything as it is, when no line
/// declares the function, when the declaration has no body, or when the
/// body never closes.
pub fn delete_rust_function(content: &str, func_name: &str) -> (r: Option<ScanResult>)
    ensures
        match r {
            None => function_span(content@, func_name@) is None,
            Some(res) => function_span(content@, func_name@) == Some(
                (res.start_line as int, res.end_line as int),
            ) && 1 <= res.start_line <= res.end_line <= lines_of(content@).len() && res.content@
                == join_lines(
                without_lines(lines_of(content@), res.start_line as int, res.end_line as int),
            ),
        },
{
    let buf = to_chars(content);
    let name = to_chars(func_name);
    let decl = match find_declaration(buf.as_slice(), name.as_slice()) {
        None => {
            return None;
        },
        Some(d) => d,
    };
    let body_start = match find_body_start(buf.as_slice(), decl.1) {
        SignatureEnd::Body { at } => at,
        _ => {
            return None;
        },
    };
    let end = match find_body_end(buf.as_slice(), body_start) {
        None => {
            return None;
        },
        Some(e) => e,
    };
    let spans = split_line_spans(buf.as_slice());
    let start_line = line_number_at(buf.as_slice(), decl.0);
    let end_line = line_number_at(buf.as_slice(), end - 1);
    proof {
        lemma_count_newlines_monotone(buf@, decl.0 as int, end - 1);
        lemma_line_of_bound(buf@, end - 1);
        assert(spans_view(spans@).len() == spans.len());
    }
    let ghost lines = lines_of(buf@);
    let mut first: usize = start_line;
    while first > 1 && is_attached_line_exec(buf.as_slice(), spans[first - 2])
        invariant
            1 <= first <= start_line <= spans.len(),
            lines == lines_of(buf@),
            spans_view(spans@) == line_spans(buf@),
            spans.len() == lines.len(),
            forall|i: int|
                0 <= i < spans.len() ==> (#[trigger] spans[i]).0 <= spans[i].1 <= buf.len(),
            widen_start(lines, start_line as int) == widen_start(lines, first as int),
        decreases first,
    {
        proof {
            assert(spans_view(spans@)[first - 2] == (
                spans[first - 2].0 as int,
                spans[first - 2].1 as int,
            ));
        }
        first -= 1;
    }
    proof {
        if first > 1 {
            assert(spans_view(spans@)[first - 2] == (
                spans[first - 2].0 as int,
                spans[first - 2].1 as int,
            ));
        }
    }
    let rest = remove_lines(buf.as_slice(), &spans, first - 1, end_line);
    Some(ScanResult { content: from_chars(rest.as_slice()), start_line: first, end_line })
}

} // verus!
