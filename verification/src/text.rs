//! Character-level text primitives shared by the matching and editing code.

use vstd::prelude::*;

verus! {

/// `String::push` appends one character.
pub assume_specification[ String::push ](s: &mut String, c: char)
    ensures
        final(s)@ == old(s)@.push(c),
;

/// The characters of `s`, in order.
pub fn to_chars(s: &str) -> (v: Vec<char>)
    ensures
        v@ == s@,
{
    let mut v: Vec<char> = Vec::new();
    for c in it: s.chars()
        invariant
            v@ == it.seq().take(it.index()),
            it.seq() == s@,
    {
        v.push(c);
    }
    v
}

/// The string made of the characters of `v`, in order.
pub fn from_chars(v: &[char]) -> (s: String)
    ensures
        s@ == v@,
{
    let mut s = String::new();
    let mut i: usize = 0;
    while i < v.len()
        invariant
            i <= v.len(),
            s@ == v@.take(i as int),
        decreases v.len() - i,
    {
        s.push(v[i]);
        i += 1;
    }
    s
}


/// Copies `v[from..to]` into a new vector.
pub fn slice_to_vec(v: &[char], from: usize, to: usize) -> (r: Vec<char>)
    requires
        from <= to <= v.len(),
    ensures
        r@ == v@.subrange(from as int, to as int),
{
    let mut r: Vec<char> = Vec::new();
    let mut i: usize = from;
    while i < to
        invariant
            from <= i <= to <= v.len(),
            r@ == v@.subrange(from as int, i as int),
        decreases to - i,
    {
        r.push(v[i]);
        i += 1;
    }
    r
}

/// Appends the characters of `src` to `dst`.
pub fn extend_chars(dst: &mut Vec<char>, src: &[char])
    ensures
        final(dst)@ == old(dst)@ + src@,
{
    let mut i: usize = 0;
    while i < src.len()
        invariant
            i <= src.len(),
            dst@ == old(dst)@ + src@.take(i as int),
        decreases src.len() - i,
    {
        dst.push(src[i]);
        i += 1;
    }
    assert(src@.take(src.len() as int) == src@);
}

/// Whether two character slices hold the same text.
pub fn chars_eq(a: &[char], b: &[char]) -> (r: bool)
    ensures
        r == (a@ == b@),
{
    if a.len() != b.len() {
        return false;
    }
    let mut i: usize = 0;
    while i < a.len()
        invariant
            i <= a.len(),
            a.len() == b.len(),
            a@.take(i as int) == b@.take(i as int),
        decreases a.len() - i,
    {
        if a[i] != b[i] {
            return false;
        }
        assert(a@.take(i + 1) == a@.take(i as int).push(a@[i as int]));
        assert(b@.take(i + 1) == b@.take(i as int).push(b@[i as int]));
        i += 1;
    }
    assert(a@.take(a.len() as int) == a@);
    assert(b@.take(b.len() as int) == b@);
    true
}

/// `needle` stands in `hay` at offset `at`.
pub open spec fn matches_at(hay: Seq<char>, needle: Seq<char>, at: int) -> bool {
    &&& 0 <= at
    &&& at + needle.len() <= hay.len()
    &&& hay.subrange(at, at + needle.len()) == needle
}

/// The least offset at or after `from` where `needle` stands in `hay`.
pub open spec fn first_match(hay: Seq<char>, needle: Seq<char>, from: int) -> Option<int>
    decreases hay.len() - from,
{
    if from < 0 || from + needle.len() > hay.len() {
        None
    } else if matches_at(hay, needle, from) {
        Some(from)
    } else if from >= hay.len() {
        None
    } else {
        first_match(hay, needle, from + 1)
    }
}

/// `first_match` returns a match, and nothing between `from` and it matches;
/// when it returns `None`, nothing at or after `from` matches.
pub proof fn lemma_first_match(hay: Seq<char>, needle: Seq<char>, from: int)
    requires
        0 <= from,
    ensures
        match first_match(hay, needle, from) {
            Some(p) => from <= p && matches_at(hay, needle, p) && forall|q: int|
                from <= q < p ==> !matches_at(hay, needle, q),
            None => forall|q: int| from <= q ==> !matches_at(hay, needle, q),
        },
    decreases hay.len() - from,
{
    if from + needle.len() > hay.len() {
    } else if matches_at(hay, needle, from) {
    } else if from >= hay.len() {
    } else {
        lemma_first_match(hay, needle, from + 1);
    }
}

/// Whether `needle` stands in `hay` at offset `at`.
pub fn matches_at_exec(hay: &[char], needle: &[char], at: usize) -> (r: bool)
    ensures
        r == matches_at(hay@, needle@, at as int),
{
    if needle.len() > hay.len() || at > hay.len() - needle.len() {
        return false;
    }
    let mut i: usize = 0;
    while i < needle.len()
        invariant
            i <= needle.len(),
            at + needle.len() <= hay.len(),
            hay@.subrange(at as int, at + i) == needle@.take(i as int),
        decreases needle.len() - i,
    {
        if hay[at + i] != needle[i] {
            assert(hay@.subrange(at as int, at + needle.len())[i as int] != needle@[i as int]);
            return false;
        }
        assert(hay@.subrange(at as int, at + i + 1) == hay@.subrange(at as int, at + i).push(
            hay@[at + i],
        ));
        assert(needle@.take(i + 1) == needle@.take(i as int).push(needle@[i as int]));
        i += 1;
    }
    assert(needle@.take(needle.len() as int) == needle@);
    true
}

/// Searches `hay` for `needle`, starting at offset `from`.
pub fn find_from(hay: &[char], needle: &[char], from: usize) -> (r: Option<usize>)
    ensures
        match r {
            Some(p) => first_match(hay@, needle@, from as int) == Some(p as int),
            None => first_match(hay@, needle@, from as int) is None,
        },
{
    if needle.len() > hay.len() {
        return None;
    }
    let last: usize = hay.len() - needle.len();
    let mut i: usize = from;
    while i <= last
        invariant
            from <= i,
            last == hay.len() - needle.len(),
            first_match(hay@, needle@, from as int) == first_match(hay@, needle@, i as int),
        decreases last + 1 - i,
    {
        if matches_at_exec(hay, needle, i) {
            return Some(i);
        }
        if i == last {
            assert(first_match(hay@, needle@, i + 1) is None);
            return None;
        }
        i += 1;
    }
    None
}

/// Whether `needle` occurs anywhere in `hay`.
pub open spec fn contains_text(hay: Seq<char>, needle: Seq<char>) -> bool {
    first_match(hay, needle, 0) is Some
}

/// Whether `needle` occurs anywhere in `hay`.
pub fn contains(hay: &[char], needle: &[char]) -> (r: bool)
    ensures
        r == contains_text(hay@, needle@),
{
    find_from(hay, needle, 0).is_some()
}

/// Whether `s` begins with `prefix`.
pub fn starts_with(s: &[char], prefix: &[char]) -> (r: bool)
    ensures
        r == matches_at(s@, prefix@, 0),
{
    matches_at_exec(s, prefix, 0)
}


/// The number of line feeds in `s`.
pub open spec fn count_newlines(s: Seq<char>) -> nat
    decreases s.len(),
{
    if s.len() == 0 {
        0
    } else {
        count_newlines(s.drop_last()) + if s.last() == '\n' {
            1nat
        } else {
            0nat
        }
    }
}

/// The 1-based number of the line that holds offset `offset` of `s`: one
/// more than the number of line feeds before that offset.
pub open spec fn line_of(s: Seq<char>, offset: int) -> int {
    1 + count_newlines(s.take(offset)) as int
}

/// A text holds no more line feeds than characters.
pub proof fn lemma_count_newlines_bound(s: Seq<char>)
    ensures
        count_newlines(s) <= s.len(),
    decreases s.len(),
{
    if s.len() > 0 {
        lemma_count_newlines_bound(s.drop_last());
    }
}

/// The 1-based number of the line that holds offset `offset`.
pub fn line_number_at(buf: &[char], offset: usize) -> (r: usize)
    requires
        offset <= buf.len(),
        offset < usize::MAX,
    ensures
        r == line_of(buf@, offset as int),
        1 <= r <= offset + 1,
{
    let mut n: usize = 0;
    let mut i: usize = 0;
    assert(buf@.take(0) == Seq::<char>::empty());
    while i < offset
        invariant
            i <= offset <= buf.len(),
            n == count_newlines(buf@.take(i as int)),
            n <= i,
        decreases offset - i,
    {
        assert(buf@.take(i + 1).drop_last() == buf@.take(i as int));
        if buf[i] == '\n' {
            n += 1;
        }
        i += 1;
    }
    n + 1
}

/// The offset of the first line feed at or after `from`, or the length of
/// `s` when there is none.
pub open spec fn next_newline(s: Seq<char>, from: int) -> int
    decreases s.len() - from,
{
    if from < 0 || from >= s.len() {
        s.len() as int
    } else if s[from] == '\n' {
        from
    } else {
        next_newline(s, from + 1)
    }
}

/// Where the text of the line that starts at `from` ends: at its line feed,
/// or before the carriage return that precedes the line feed.
pub open spec fn line_end(s: Seq<char>, from: int) -> int {
    let k = next_newline(s, from);
    if k < s.len() && from < k && s[k - 1] == '\r' {
        k - 1
    } else {
        k
    }
}

/// The lines of `s` from offset `from` on, each as the half-open range of
/// its text. A line ends at a line feed or at a carriage return followed by
/// a line feed; neither belongs to the line's text. Text after the last
/// line feed is a line of its own unless it is empty.
pub open spec fn line_spans_from(s: Seq<char>, from: int) -> Seq<(int, int)>
    decreases s.len() - from,
{
    if from < 0 || from >= s.len() {
        Seq::empty()
    } else {
        let k = next_newline(s, from);
        if from <= k < s.len() {
            seq![(from, line_end(s, from))] + line_spans_from(s, k + 1)
        } else {
            seq![(from, line_end(s, from))]
        }
    }
}

/// The lines of `s`, each as the half-open range of its text.
pub open spec fn line_spans(s: Seq<char>) -> Seq<(int, int)> {
    line_spans_from(s, 0)
}

/// The lines of `s`, without their terminators.
pub open spec fn lines_of(s: Seq<char>) -> Seq<Seq<char>> {
    line_spans(s).map_values(|sp: (int, int)| s.subrange(sp.0, sp.1))
}

/// A vector of ranges, read as mathematical integers.
pub open spec fn spans_view(v: Seq<(usize, usize)>) -> Seq<(int, int)> {
    v.map_values(|sp: (usize, usize)| (sp.0 as int, sp.1 as int))
}

/// `next_newline` returns the offset of a line feed, or the length of the
/// text, and no line feed stands between `from` and it.
pub proof fn lemma_next_newline(s: Seq<char>, from: int)
    requires
        0 <= from <= s.len(),
    ensures
        from <= next_newline(s, from) <= s.len(),
        next_newline(s, from) < s.len() ==> s[next_newline(s, from)] == '\n',
        forall|j: int| from <= j < next_newline(s, from) ==> s[j] != '\n',
    decreases s.len() - from,
{
    if from < s.len() && s[from] != '\n' {
        lemma_next_newline(s, from + 1);
    }
}

/// The lines of `buf`, each as the half-open range of its text.
pub fn split_line_spans(buf: &[char]) -> (r: Vec<(usize, usize)>)
    ensures
        spans_view(r@) == line_spans(buf@),
        forall|i: int| 0 <= i < r.len() ==> (#[trigger] r[i]).0 <= r[i].1 <= buf.len(),
{
    let mut r: Vec<(usize, usize)> = Vec::new();
    let mut start: usize = 0;
    let mut i: usize = 0;
    let n = buf.len();
    assert(spans_view(r@) == Seq::<(int, int)>::empty());
    while i < n
        invariant
            n == buf.len(),
            start <= i <= n,
            line_spans(buf@) == spans_view(r@) + line_spans_from(buf@, start as int),
            next_newline(buf@, start as int) == next_newline(buf@, i as int),
            forall|j: int| 0 <= j < r.len() ==> (#[trigger] r[j]).0 <= r[j].1 <= buf.len(),
        decreases n - i,
    {
        if buf[i] == '\n' {
            let end: usize = if start < i && buf[i - 1] == '\r' {
                i - 1
            } else {
                i
            };
            proof {
                assert(next_newline(buf@, start as int) == i);
                assert(line_end(buf@, start as int) == end);
                assert(line_spans_from(buf@, start as int) == seq![(start as int, end as int)]
                    + line_spans_from(buf@, i + 1));
                assert(spans_view(r@.push((start, end))) == spans_view(r@) + seq![
                    (start as int, end as int),
                ]);
            }
            r.push((start, end));
            start = i + 1;
        }
        i += 1;
    }
    if start < n {
        proof {
            assert(next_newline(buf@, i as int) == n);
            assert(line_end(buf@, start as int) == n);
            assert(line_spans_from(buf@, start as int) == seq![(start as int, n as int)]);
            assert(spans_view(r@.push((start, n))) == spans_view(r@) + seq![
                (start as int, n as int),
            ]);
        }
        r.push((start, n));
    } else {
        assert(line_spans_from(buf@, start as int) == Seq::<(int, int)>::empty());
        assert(spans_view(r@) + Seq::<(int, int)>::empty() == spans_view(r@));
    }
    r
}

/// The lines joined by single line feeds, with none after the last.
pub open spec fn join_lines(lines: Seq<Seq<char>>) -> Seq<char>
    decreases lines.len(),
{
    if lines.len() == 0 {
        Seq::empty()
    } else if lines.len() == 1 {
        lines[0]
    } else {
        join_lines(lines.drop_last()) + seq!['\n'] + lines.last()
    }
}

/// The texts of `spans[from..to]` in `buf`, joined by single line feeds.
pub fn join_spans(buf: &[char], spans: &Vec<(usize, usize)>, from: usize, to: usize) -> (r: Vec<
    char,
>)
    requires
        from <= to <= spans.len(),
        forall|i: int| 0 <= i < spans.len() ==> (#[trigger] spans[i]).0 <= spans[i].1 <= buf.len(),
    ensures
        r@ == join_lines(
            spans_view(spans@).subrange(from as int, to as int).map_values(
                |sp: (int, int)| buf@.subrange(sp.0, sp.1),
            ),
        ),
{
    let mut r: Vec<char> = Vec::new();
    let mut i: usize = from;
    while i < to
        invariant
            from <= i <= to <= spans.len(),
            forall|j: int|
                0 <= j < spans.len() ==> (#[trigger] spans[j]).0 <= spans[j].1 <= buf.len(),
            r@ == join_lines(
                spans_view(spans@).subrange(from as int, i as int).map_values(
                    |sp: (int, int)| buf@.subrange(sp.0, sp.1),
                ),
            ),
        decreases to - i,
    {
        let ghost before = spans_view(spans@).subrange(from as int, i as int).map_values(
            |sp: (int, int)| buf@.subrange(sp.0, sp.1),
        );
        let ghost after = spans_view(spans@).subrange(from as int, i + 1).map_values(
            |sp: (int, int)| buf@.subrange(sp.0, sp.1),
        );
        if i > from {
            r.push('\n');
        }
        let sp = spans[i];
        let mut j: usize = sp.0;
        let ghost base = r@;
        while j < sp.1
            invariant
                sp.0 <= j <= sp.1 <= buf.len(),
                r@ == base + buf@.subrange(sp.0 as int, j as int),
            decreases sp.1 - j,
        {
            r.push(buf[j]);
            j += 1;
        }
        proof {
            assert(after.drop_last() == before);
            assert(after.last() == buf@.subrange(sp.0 as int, sp.1 as int));
            if i > from {
                assert(before.len() > 0);
            } else {
                assert(before.len() == 0);
                assert(base == Seq::<char>::empty());
            }
        }
        i += 1;
    }
    r
}


/// Whether `c` is white space: the characters with the Unicode property
/// `White_Space`.
pub open spec fn is_whitespace(c: char) -> bool {
    let u = c as u32;
    ||| 0x09 <= u <= 0x0D
    ||| u == 0x20
    ||| u == 0x85
    ||| u == 0xA0
    ||| u == 0x1680
    ||| 0x2000 <= u <= 0x200A
    ||| u == 0x2028
    ||| u == 0x2029
    ||| u == 0x202F
    ||| u == 0x205F
    ||| u == 0x3000
}

/// Whether `c` is white space.
pub fn is_whitespace_char(c: char) -> (r: bool)
    ensures
        r == is_whitespace(c),
{
    let u: u32 = c as u32;
    (0x09 <= u && u <= 0x0D) || u == 0x20 || u == 0x85 || u == 0xA0 || u == 0x1680 || (0x2000 <= u
        && u <= 0x200A) || u == 0x2028 || u == 0x2029 || u == 0x202F || u == 0x205F || u == 0x3000
}

/// The length of `s` without its trailing white space.
pub open spec fn trimmed_end(s: Seq<char>) -> int
    decreases s.len(),
{
    if s.len() > 0 && is_whitespace(s.last()) {
        trimmed_end(s.drop_last())
    } else {
        s.len() as int
    }
}

/// The number of white-space characters at the start of `s`.
pub open spec fn leading_whitespace(s: Seq<char>) -> int
    decreases s.len(),
{
    if s.len() > 0 && is_whitespace(s[0]) {
        1 + leading_whitespace(s.drop_first())
    } else {
        0
    }
}

/// `s` without its trailing white space.
pub open spec fn trim_end(s: Seq<char>) -> Seq<char> {
    s.take(trimmed_end(s))
}

/// `s` without its leading white space.
pub open spec fn trim_start(s: Seq<char>) -> Seq<char> {
    s.skip(leading_whitespace(s))
}

/// `s` without its leading and trailing white space.
pub open spec fn trim(s: Seq<char>) -> Seq<char> {
    trim_end(trim_start(s))
}

/// What `trimmed_end` cuts off is white space, and what it keeps does not
/// end in white space.
pub proof fn lemma_trimmed_end(s: Seq<char>)
    ensures
        0 <= trimmed_end(s) <= s.len(),
        trimmed_end(s) > 0 ==> !is_whitespace(s[trimmed_end(s) - 1]),
        forall|j: int| trimmed_end(s) <= j < s.len() ==> is_whitespace(s[j]),
    decreases s.len(),
{
    if s.len() > 0 && is_whitespace(s.last()) {
        let t = s.drop_last();
        lemma_trimmed_end(t);
        assert forall|j: int| trimmed_end(s) <= j < s.len() implies is_whitespace(s[j]) by {
            if j < t.len() {
                assert(s[j] == t[j]);
            }
        }
    }
}

/// The end of `buf[from..to]` once its trailing white space is left out.
pub fn trim_end_index(buf: &[char], from: usize, to: usize) -> (r: usize)
    requires
        from <= to <= buf.len(),
    ensures
        r == from + trimmed_end(buf@.subrange(from as int, to as int)),
        from <= r <= to,
{
    let mut e: usize = to;
    while e > from && is_whitespace_char(buf[e - 1])
        invariant
            from <= e <= to <= buf.len(),
            trimmed_end(buf@.subrange(from as int, to as int)) == trimmed_end(
                buf@.subrange(from as int, e as int),
            ),
        decreases e,
    {
        assert(buf@.subrange(from as int, e as int).drop_last() == buf@.subrange(
            from as int,
            e - 1,
        ));
        e -= 1;
    }
    e
}

/// The start of `buf[from..to]` once its leading white space is left out.
pub fn trim_start_index(buf: &[char], from: usize, to: usize) -> (r: usize)
    requires
        from <= to <= buf.len(),
    ensures
        r == from + leading_whitespace(buf@.subrange(from as int, to as int)),
        from <= r <= to,
{
    let mut b: usize = from;
    while b < to && is_whitespace_char(buf[b])
        invariant
            from <= b <= to <= buf.len(),
            leading_whitespace(buf@.subrange(from as int, to as int)) == (b - from)
                + leading_whitespace(buf@.subrange(b as int, to as int)),
        decreases to - b,
    {
        assert(buf@.subrange(b as int, to as int).drop_first() == buf@.subrange(
            b + 1,
            to as int,
        ));
        b += 1;
    }
    b
}

/// The decimal digit for `d`.
pub open spec fn digit_char(d: int) -> char {
    if d == 0 {
        '0'
    } else if d == 1 {
        '1'
    } else if d == 2 {
        '2'
    } else if d == 3 {
        '3'
    } else if d == 4 {
        '4'
    } else if d == 5 {
        '5'
    } else if d == 6 {
        '6'
    } else if d == 7 {
        '7'
    } else if d == 8 {
        '8'
    } else {
        '9'
    }
}

/// `n` written in decimal, without leading zeros.
pub open spec fn decimal(n: nat) -> Seq<char>
    decreases n,
{
    if n < 10 {
        seq![digit_char(n as int)]
    } else {
        decimal(n / 10).push(digit_char((n % 10) as int))
    }
}

fn digit_of(d: usize) -> (c: char)
    requires
        d < 10,
    ensures
        c == digit_char(d as int),
{
    if d == 0 {
        '0'
    } else if d == 1 {
        '1'
    } else if d == 2 {
        '2'
    } else if d == 3 {
        '3'
    } else if d == 4 {
        '4'
    } else if d == 5 {
        '5'
    } else if d == 6 {
        '6'
    } else if d == 7 {
        '7'
    } else if d == 8 {
        '8'
    } else {
        '9'
    }
}

/// Appends `n` in decimal to `out`.
pub fn push_decimal(out: &mut Vec<char>, n: usize)
    ensures
        final(out)@ == old(out)@ + decimal(n as nat),
    decreases n,
{
    if n >= 10 {
        push_decimal(out, n / 10);
    }
    out.push(digit_of(n % 10));
}

/// Appends `n` in decimal to `out`, for numbers beyond the range of `usize`.
pub fn push_decimal_wide(out: &mut Vec<char>, n: u128)
    ensures
        final(out)@ == old(out)@ + decimal(n as nat),
    decreases n,
{
    if n >= 10 {
        push_decimal_wide(out, n / 10);
    }
    let d: u128 = n % 10;
    out.push(digit_of(d as usize));
}

/// `n` written in decimal, padded with spaces on the left to at least
/// `width` characters.
pub open spec fn padded_decimal(n: nat, width: nat) -> Seq<char> {
    let d = decimal(n);
    if d.len() >= width {
        d
    } else {
        Seq::new((width - d.len()) as nat, |i: int| ' ') + d
    }
}

/// Appends `n` in decimal to `out`, right-aligned in `width` columns.
pub fn push_padded_decimal(out: &mut Vec<char>, n: usize, width: usize)
    ensures
        final(out)@ == old(out)@ + padded_decimal(n as nat, width as nat),
{
    let mut digits: Vec<char> = Vec::new();
    push_decimal(&mut digits, n);
    assert(digits@ == decimal(n as nat));
    let pad: usize = if digits.len() < width {
        width - digits.len()
    } else {
        0
    };
    let mut k: usize = 0;
    assert(out@ == old(out)@ + Seq::new(0nat, |i: int| ' '));
    while k < pad
        invariant
            k <= pad,
            out@ == old(out)@ + Seq::new(k as nat, |i: int| ' '),
        decreases pad - k,
    {
        out.push(' ');
        k += 1;
        assert(out@ == old(out)@ + Seq::new(k as nat, |i: int| ' '));
    }
    extend_chars(out, digits.as_slice());
    assert(out@ == old(out)@ + padded_decimal(n as nat, width as nat));
}

/// Appends the characters of `s` to `out`.
pub fn push_str(out: &mut Vec<char>, s: &str)
    ensures
        final(out)@ == old(out)@ + s@,
{
    let v = to_chars(s);
    extend_chars(out, v.as_slice());
}


/// A longer prefix holds at least as many line feeds.
pub proof fn lemma_count_newlines_monotone(s: Seq<char>, a: int, b: int)
    requires
        0 <= a <= b <= s.len(),
    ensures
        count_newlines(s.take(a)) <= count_newlines(s.take(b)),
    decreases b - a,
{
    if a < b {
        lemma_count_newlines_monotone(s, a, b - 1);
        assert(s.take(b).drop_last() == s.take(b - 1));
    }
}

/// `buf` with the range `start..end` replaced by `replacement`.
pub open spec fn splice(buf: Seq<char>, start: int, end: int, replacement: Seq<char>) -> Seq<char> {
    buf.take(start) + replacement + buf.skip(end)
}

/// Replaces the range `start..end` of `buf` by `replacement`.
pub fn splice_chars(buf: &[char], start: usize, end: usize, replacement: &[char]) -> (r: Vec<char>)
    requires
        start <= end <= buf.len(),
    ensures
        r@ == splice(buf@, start as int, end as int, replacement@),
{
    let mut r = slice_to_vec(buf, 0, start);
    extend_chars(&mut r, replacement);
    let tail = slice_to_vec(buf, end, buf.len());
    extend_chars(&mut r, tail.as_slice());
    assert(buf@.subrange(0, start as int) == buf@.take(start as int));
    assert(buf@.subrange(end as int, buf.len() as int) == buf@.skip(end as int));
    r
}


/// Line feeds are counted piece by piece.
pub proof fn lemma_count_newlines_concat(a: Seq<char>, b: Seq<char>)
    ensures
        count_newlines(a + b) == count_newlines(a) + count_newlines(b),
    decreases b.len(),
{
    if b.len() == 0 {
        assert(a + b == a);
    } else {
        assert((a + b).drop_last() == a + b.drop_last());
        lemma_count_newlines_concat(a, b.drop_last());
    }
}

/// Text without line feeds counts none.
pub proof fn lemma_count_newlines_none(s: Seq<char>)
    requires
        forall|i: int| 0 <= i < s.len() ==> s[i] != '\n',
    ensures
        count_newlines(s) == 0,
    decreases s.len(),
{
    if s.len() > 0 {
        lemma_count_newlines_none(s.drop_last());
    }
}

/// From a line start on, there are at least as many lines as it takes to
/// reach the line that holds the character at `p`.
pub proof fn lemma_lines_reach(s: Seq<char>, from: int, p: int)
    requires
        0 <= from <= p < s.len(),
    ensures
        line_spans_from(s, from).len() >= 1 + count_newlines(s.subrange(from, p)),
    decreases s.len() - from,
{
    lemma_next_newline(s, from);
    let k = next_newline(s, from);
    if p <= k {
        lemma_count_newlines_none(s.subrange(from, p));
    } else {
        lemma_lines_reach(s, k + 1, p);
        let head = s.subrange(from, k);
        let mid = seq![s[k]];
        let tail = s.subrange(k + 1, p);
        assert(s.subrange(from, p) == head + mid + tail);
        lemma_count_newlines_none(head);
        lemma_count_newlines_concat(head, mid);
        lemma_count_newlines_concat(head + mid, tail);
        assert(mid.drop_last() == Seq::<char>::empty());
        assert(mid.last() == '\n');
        assert(count_newlines(mid.drop_last()) == 0);
        assert(count_newlines(mid) == 1);
    }
}

/// The line that holds a character of the text is one of its lines.
pub proof fn lemma_line_of_bound(s: Seq<char>, p: int)
    requires
        0 <= p < s.len(),
    ensures
        1 <= line_of(s, p) <= line_spans(s).len(),
{
    lemma_lines_reach(s, 0, p);
    assert(s.subrange(0, p) == s.take(p));
}

/// The lines of `buf` without those at the 0-based positions
/// `first..end`, joined by line feeds.
pub fn remove_lines(buf: &[char], spans: &Vec<(usize, usize)>, first: usize, end: usize) -> (r: Vec<
    char,
>)
    requires
        spans_view(spans@) == line_spans(buf@),
        forall|i: int| 0 <= i < spans.len() ==> (#[trigger] spans[i]).0 <= spans[i].1 <= buf.len(),
        first <= end <= spans.len(),
    ensures
        r@ == join_lines(lines_of(buf@).take(first as int) + lines_of(buf@).skip(end as int)),
{
    let mut kept: Vec<(usize, usize)> = Vec::new();
    let mut i: usize = 0;
    while i < first
        invariant
            i <= first <= spans.len(),
            kept@ == spans@.take(i as int),
        decreases first - i,
    {
        kept.push(spans[i]);
        i += 1;
    }
    let mut j: usize = end;
    while j < spans.len()
        invariant
            end <= j <= spans.len(),
            first <= end,
            kept@ == spans@.take(first as int) + spans@.subrange(end as int, j as int),
        decreases spans.len() - j,
    {
        kept.push(spans[j]);
        j += 1;
    }
    assert(spans@.subrange(end as int, spans.len() as int) == spans@.skip(end as int));
    assert(forall|k: int| 0 <= k < kept.len() ==> (#[trigger] kept[k]).0 <= kept[k].1 <= buf.len());
    let r = join_spans(buf, &kept, 0, kept.len());
    proof {
        let f = |sp: (int, int)| buf@.subrange(sp.0, sp.1);
        let sv = spans_view(spans@);
        assert(sv.len() == spans.len());
        assert(spans_view(kept@) == sv.take(first as int) + sv.skip(end as int));
        assert(spans_view(kept@).subrange(0, kept.len() as int) == spans_view(kept@));
        assert(spans_view(kept@).map_values(f) == lines_of(buf@).take(first as int) + lines_of(
            buf@,
        ).skip(end as int));
    }
    r
}

/// `t` with a line feed added at its end, unless it is empty or ends in one
/// already.
pub open spec fn with_final_newline(t: Seq<char>) -> Seq<char> {
    if t.len() > 0 && t.last() != '\n' {
        t.push('\n')
    } else {
        t
    }
}

/// Ends `text` with a line feed, unless it is empty or ends in one already.
pub fn ensure_final_newline(text: &str) -> (r: String)
    ensures
        r@ == with_final_newline(text@),
{
    let mut v = to_chars(text);
    if v.len() > 0 && v[v.len() - 1] != '\n' {
        v.push('\n');
    }
    from_chars(v.as_slice())
}


/// The texts of a list of strings.
pub open spec fn string_texts(v: Seq<String>) -> Seq<Seq<char>> {
    v.map_values(|s: String| s@)
}

/// The lines of `text`, without their terminators.
pub fn split_lines(text: &str) -> (r: Vec<String>)
    ensures
        string_texts(r@) == lines_of(text@),
{
    let buf = to_chars(text);
    let spans = split_line_spans(buf.as_slice());
    let mut r: Vec<String> = Vec::new();
    let mut i: usize = 0;
    assert(spans_view(spans@).len() == spans.len());
    while i < spans.len()
        invariant
            i <= spans.len(),
            buf@ == text@,
            spans_view(spans@) == line_spans(buf@),
            forall|j: int| 0 <= j < spans.len() ==> (#[trigger] spans[j]).0 <= spans[j].1 <= buf.len(),
            r.len() == i,
            forall|j: int| 0 <= j < i ==> (#[trigger] r[j])@ == lines_of(buf@)[j],
        decreases spans.len() - i,
    {
        let sp = spans[i];
        assert(spans_view(spans@)[i as int] == (sp.0 as int, sp.1 as int));
        let line = slice_to_vec(buf.as_slice(), sp.0, sp.1);
        r.push(from_chars(line.as_slice()));
        i += 1;
    }
    assert(string_texts(r@) == lines_of(text@));
    r
}

/// The number of lines of `text`.
pub fn count_lines(text: &str) -> (r: usize)
    ensures
        r == lines_of(text@).len(),
{
    let buf = to_chars(text);
    let spans = split_line_spans(buf.as_slice());
    assert(spans_view(spans@).len() == spans.len());
    spans.len()
}


/// The lines from a line start on are numbered one after the other: line
/// `i` of them starts behind `i` more line feeds than the first.
pub proof fn lemma_line_starts_count(s: Seq<char>, from: int, i: int)
    requires
        0 <= from,
        0 <= i < line_spans_from(s, from).len(),
    ensures
        from <= line_spans_from(s, from)[i].0 <= s.len(),
        count_newlines(s.take(line_spans_from(s, from)[i].0)) == count_newlines(s.take(from)) + i,
    decreases s.len() - from,
{
    lemma_next_newline(s, from);
    let k = next_newline(s, from);
    if i > 0 {
        let rest = line_spans_from(s, k + 1);
        assert(line_spans_from(s, from) == seq![(from, line_end(s, from))] + rest);
        assert(line_spans_from(s, from)[i] == rest[i - 1]);
        lemma_line_starts_count(s, k + 1, i - 1);
        let head = s.take(from);
        let line = s.subrange(from, k);
        let feed = seq![s[k]];
        assert(s.take(k + 1) == head + line + feed);
        lemma_count_newlines_none(line);
        lemma_count_newlines_concat(head, line);
        lemma_count_newlines_concat(head + line, feed);
        assert(feed.drop_last() == Seq::<char>::empty());
        assert(feed.last() == '\n');
        assert(count_newlines(feed.drop_last()) == 0);
    }
}

/// Line `i` (0-based) of a text starts on the line numbered `i + 1`.
pub proof fn lemma_line_number_of_line(s: Seq<char>, i: int)
    requires
        0 <= i < line_spans(s).len(),
    ensures
        line_of(s, line_spans(s)[i].0) == i + 1,
{
    lemma_line_starts_count(s, 0, i);
    assert(s.take(0) == Seq::<char>::empty());
}

} // verus!
