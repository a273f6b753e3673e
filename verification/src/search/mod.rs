//! Search tools: finding files by name and text in files.

pub mod filtering;

use crate::editing::matching::{find_occurrences, occurrences, offsets_view};
use crate::params::{is_validation, needs_positional, require_positional};
use crate::patterns::{compiled, has_match};
use crate::text::{
    decimal, extend_chars, from_chars, line_spans, lines_of, push_decimal, push_decimal_wide,
    push_str, slice_to_vec, spans_view, split_line_spans, string_texts, to_chars, trim,
    trim_end_index, trim_start, trim_start_index,
};
use crate::tool_core::{index_of, ToolArgs, ToolError};
use vstd::prelude::*;

verus! {

/// The most matches that a search reports.
pub const MAX_SEARCH_RESULTS: usize = 1000;

/// A place where the search term was found.
#[derive(Debug, Clone)]
pub struct SearchMatch {
    pub file: String,
    pub line_number: usize,
    pub line_content: String,
    pub match_start: usize,
    pub match_end: usize,
}

/// Whether `c` has a meaning of its own in a regular expression and none
/// in a glob.
pub open spec fn is_regex_meta(c: char) -> bool {
    c == '.' || c == '^' || c == '$' || c == '(' || c == ')' || c == '{' || c == '}' || c == '|'
        || c == '+' || c == '\\'
}

/// The regular expression for the part of a glob from offset `i` on: `**/`
/// matches any run of directories, `**` anything, `*` anything within a
/// path component, `?` one character of a component; a bracket expression
/// is taken over as it is, and every other character stands for itself.
pub open spec fn glob_from(s: Seq<char>, i: int) -> Seq<char>
    decreases s.len() - i,
{
    if i < 0 || i >= s.len() {
        Seq::empty()
    } else {
        let c = s[i];
        if c == '*' {
            if i + 1 < s.len() && s[i + 1] == '*' {
                if i + 2 < s.len() && s[i + 2] == '/' {
                    "(?:.*/)?"@ + glob_from(s, i + 3)
                } else {
                    ".*"@ + glob_from(s, i + 2)
                }
            } else {
                "[^/]*"@ + glob_from(s, i + 1)
            }
        } else if c == '?' {
            "[^/]"@ + glob_from(s, i + 1)
        } else if c == '[' {
            let k = index_of(s, ']', i + 1);
            if i + 1 <= k < s.len() {
                seq!['['] + s.subrange(i + 1, k) + seq![']'] + glob_from(s, k + 1)
            } else {
                seq!['['] + s.subrange(i + 1, s.len() as int)
            }
        } else if is_regex_meta(c) {
            seq!['\\', c] + glob_from(s, i + 1)
        } else {
            seq![c] + glob_from(s, i + 1)
        }
    }
}

/// The regular expression that matches what the glob `s` matches.
pub open spec fn glob_pattern(s: Seq<char>) -> Seq<char> {
    seq!['^'] + glob_from(s, 0) + seq!['$']
}

/// The regular expression, as text, that matches what `pattern` matches
/// as a glob.
pub fn glob_to_pattern(pattern: &str) -> (r: String)
    ensures
        r@ == glob_pattern(pattern@),
{
    let s = to_chars(pattern);
    let n = s.len();
    let mut out: Vec<char> = Vec::new();
    out.push('^');
    let mut i: usize = 0;
    while i < n
        invariant
            n == s.len(),
            i <= n,
            seq!['^'] + glob_from(s@, 0) == out@ + glob_from(s@, i as int),
        decreases n - i,
    {
        let c = s[i];
        if c == '*' {
            if i + 1 < n && s[i + 1] == '*' {
                if i + 2 < n && s[i + 2] == '/' {
                    push_str(&mut out, "(?:.*/)?");
                    i += 3;
                } else {
                    push_str(&mut out, ".*");
                    i += 2;
                }
            } else {
                push_str(&mut out, "[^/]*");
                i += 1;
            }
        } else if c == '?' {
            push_str(&mut out, "[^/]");
            i += 1;
        } else if c == '[' {
            let mut k: usize = i + 1;
            while k < n && s[k] != ']'
                invariant
                    n == s.len(),
                    i + 1 <= k <= n,
                    index_of(s@, ']', i + 1) == index_of(s@, ']', k as int),
                decreases n - k,
            {
                k += 1;
            }
            out.push('[');
            let inner = slice_to_vec(s.as_slice(), i + 1, k);
            extend_chars(&mut out, inner.as_slice());
            if k < n {
                out.push(']');
                i = k + 1;
            } else {
                i = n;
            }
        } else if c == '.' || c == '^' || c == '$' || c == '(' || c == ')' || c == '{' || c == '}'
            || c == '|' || c == '+' || c == '\\' {
            out.push('\\');
            out.push(c);
            i += 1;
        } else {
            out.push(c);
            i += 1;
        }
    }
    out.push('$');
    from_chars(out.as_slice())
}

/// Tool for finding files by name or pattern.
pub struct FindFileTool {
    name: String,
}

impl FindFileTool {
    pub fn new() -> (r: Self)
        ensures
            r.spec_name() == "find_file"@,
    {
        FindFileTool { name: "find_file".to_owned() }
    }

    /// The name under which the tool is registered.
    pub closed spec fn spec_name(&self) -> Seq<char> {
        self.name@
    }

    pub fn name(&self) -> (r: &str)
        ensures
            r@ == self.spec_name(),
    {
        self.name.as_str()
    }

    pub fn description(&self) -> (r: &'static str)
        ensures
            r@ == "Finds all files with the given name or pattern in dir. If dir is not provided, searches in the current directory"@,
    {
        "Finds all files with the given name or pattern in dir. If dir is not provided, searches in the current directory"
    }

    pub fn signature(&self) -> (r: &'static str)
        ensures
            r@ == "find_file <file_name> [<dir>]"@,
    {
        "find_file <file_name> [<dir>]"
    }

    /// The arguments must name a file or a pattern.
    pub fn validate_args(&self, args: &ToolArgs) -> (r: Result<(), ToolError>)
        ensures
            is_validation(r, needs_positional(*args, "Usage: find_file <file_name> [<dir>]"@)),
    {
        require_positional(args, "Usage: find_file <file_name> [<dir>]")
    }

    /// Compiles the regular expression that matches what `pattern`
    /// matches as a glob.
    pub fn glob_to_regex(pattern: &str) -> (r: Result<regex::Regex, ToolError>)
        ensures
            match r {
                Ok(re) => compiled(glob_pattern(pattern@)) == Ok::<regex::Regex, regex::Error>(re),
                Err(e) => e matches ToolError::Regex(cause) && compiled(glob_pattern(pattern@))
                    == Err::<regex::Regex, regex::Error>(cause),
            },
    {
        let text = glob_to_pattern(pattern);
        match regex::Regex::new(text.as_str()) {
            Ok(re) => Ok(re),
            Err(e) => Err(ToolError::Regex(e)),
        }
    }

    /// Whether a file is a match: its name or its path relative to the
    /// directory searched matches the expression.
    pub fn is_match(re: &regex::Regex, file_name: &str, relative_path: &str) -> (r: bool)
        ensures
            r == (has_match(*re, file_name@) || has_match(*re, relative_path@)),
    {
        re.is_match(file_name) || re.is_match(relative_path)
    }
}

/// The offsets at which `term` is found in `line`: those of its
/// occurrences, left to right and without overlap; the empty term is found
/// at every offset.
pub open spec fn term_hits(line: Seq<char>, term: Seq<char>) -> Seq<int> {
    if term.len() == 0 {
        Seq::new(line.len() + 1, |i: int| i)
    } else {
        occurrences(line, term, 0, line.len())
    }
}

/// The hits in the first `upto` lines, each as the 0-based index of its
/// line and its offset in the line, top to bottom and left to right.
pub open spec fn file_hits(lines: Seq<Seq<char>>, term: Seq<char>, upto: int) -> Seq<(int, int)>
    decreases upto,
{
    if upto <= 0 {
        Seq::empty()
    } else {
        file_hits(lines, term, upto - 1) + term_hits(lines[upto - 1], term).map_values(
            |p: int| (upto - 1, p),
        )
    }
}

/// `m` reports the hit `hit` for `term` in the file `file` with the lines
/// `lines`.
pub open spec fn is_search_match(
    m: SearchMatch,
    file: Seq<char>,
    lines: Seq<Seq<char>>,
    term: Seq<char>,
    hit: (int, int),
) -> bool {
    &&& m.file@ == file
    &&& m.line_number == hit.0 + 1
    &&& m.line_content@ == lines[hit.0]
    &&& m.match_start == hit.1
    &&& m.match_end == hit.1 + term.len()
}

/// The hits of more lines start with the hits of fewer.
pub proof fn lemma_file_hits_prefix(lines: Seq<Seq<char>>, term: Seq<char>, a: int, b: int)
    requires
        0 <= a <= b,
    ensures
        file_hits(lines, term, a).len() <= file_hits(lines, term, b).len(),
        file_hits(lines, term, b).take(file_hits(lines, term, a).len() as int) == file_hits(
            lines,
            term,
            a,
        ),
    decreases b - a,
{
    if a < b {
        lemma_file_hits_prefix(lines, term, a, b - 1);
        let x = file_hits(lines, term, a);
        let y = file_hits(lines, term, b - 1);
        let z = file_hits(lines, term, b);
        assert(z.take(y.len() as int) == y);
        assert(z.take(x.len() as int) == y.take(x.len() as int));
    } else {
        let x = file_hits(lines, term, a);
        assert(x.take(x.len() as int) == x);
    }
}

/// Tool for searching content within a specific file.
pub struct SearchFileTool {
    name: String,
}

impl SearchFileTool {
    pub fn new() -> (r: Self)
        ensures
            r.spec_name() == "search_file"@,
    {
        SearchFileTool { name: "search_file".to_owned() }
    }

    /// The name under which the tool is registered.
    pub closed spec fn spec_name(&self) -> Seq<char> {
        self.name@
    }

    pub fn name(&self) -> (r: &str)
        ensures
            r@ == self.spec_name(),
    {
        self.name.as_str()
    }

    pub fn description(&self) -> (r: &'static str)
        ensures
            r@ == "Searches for search_term in file. If file is not provided, searches in the current open file"@,
    {
        "Searches for search_term in file. If file is not provided, searches in the current open file"
    }

    pub fn signature(&self) -> (r: &'static str)
        ensures
            r@ == "search_file <search_term> [<file>]"@,
    {
        "search_file <search_term> [<file>]"
    }

    /// The arguments must give a search term.
    pub fn validate_args(&self, args: &ToolArgs) -> (r: Result<(), ToolError>)
        ensures
            is_validation(r, needs_positional(*args, "Usage: search_file <search_term> [<file>]"@)),
    {
        require_positional(args, "Usage: search_file <search_term> [<file>]")
    }

    /// Finds `search_term`, taken literally, in `content`, the text of the
    /// file `file`: every hit line by line, at most `limit` of them.
    pub fn search_in_content(&self, search_term: &str, content: &str, file: &str, limit: usize) -> (r:
        Vec<SearchMatch>)
        ensures
            ({
                let lines = lines_of(content@);
                let all = file_hits(lines, search_term@, lines.len() as int);
                &&& r.len() == if all.len() < limit {
                    all.len()
                } else {
                    limit as nat
                }
                &&& forall|i: int|
                    0 <= i < r.len() ==> is_search_match(
                        #[trigger] r[i],
                        file@,
                        lines,
                        search_term@,
                        all[i],
                    )
            }),
    {
        let buf = to_chars(content);
        let term = to_chars(search_term);
        let spans = split_line_spans(buf.as_slice());
        let ghost lines = lines_of(content@);
        let ghost all = file_hits(lines, search_term@, lines.len() as int);
        let mut r: Vec<SearchMatch> = Vec::new();
        let mut li: usize = 0;
        assert(spans_view(spans@).len() == spans.len());
        proof {
            lemma_file_hits_prefix(lines, search_term@, 0, lines.len() as int);
        }
        while li < spans.len()
            invariant
                li <= spans.len(),
                buf@ == content@,
                term@ == search_term@,
                lines == lines_of(content@),
                all == file_hits(lines, search_term@, lines.len() as int),
                spans_view(spans@) == line_spans(buf@),
                spans.len() == lines.len(),
                forall|j: int|
                    0 <= j < spans.len() ==> (#[trigger] spans[j]).0 <= spans[j].1 <= buf.len(),
                r.len() == file_hits(lines, search_term@, li as int).len(),
                r.len() <= limit,
                forall|i: int|
                    0 <= i < r.len() ==> is_search_match(
                        #[trigger] r[i],
                        file@,
                        lines,
                        search_term@,
                        file_hits(lines, search_term@, li as int)[i],
                    ),
            decreases spans.len() - li,
        {
            let sp = spans[li];
            assert(spans_view(spans@)[li as int] == (sp.0 as int, sp.1 as int));
            let line = slice_to_vec(buf.as_slice(), sp.0, sp.1);
            assert(line@ == lines[li as int]);
            let hits: Vec<usize> = if term.len() == 0 {
                let mut h: Vec<usize> = Vec::new();
                let mut k: usize = 0;
                while k < line.len()
                    invariant
                        k <= line.len(),
                        h.len() == k,
                        forall|i: int| 0 <= i < k ==> (#[trigger] h[i]) == i,
                    decreases line.len() - k,
                {
                    h.push(k);
                    k += 1;
                }
                h.push(line.len());
                assert(offsets_view(h@) =~= Seq::new((line.len() + 1) as nat, |i: int| i));
                h
            } else {
                find_occurrences(line.as_slice(), term.as_slice(), line.len())
            };
            assert(offsets_view(hits@) == term_hits(lines[li as int], search_term@));
            assert(term.len() > 0 ==> forall|i: int|
                0 <= i < hits.len() ==> (#[trigger] hits[i]) + term.len() <= line.len());
            let ghost before = file_hits(lines, search_term@, li as int);
            let ghost here = term_hits(lines[li as int], search_term@).map_values(
                |p: int| (li as int, p),
            );
            assert(file_hits(lines, search_term@, li + 1) == before + here);
            let mut j: usize = 0;
            while j < hits.len()
                invariant
                    j <= hits.len(),
                    li < spans.len(),
                    spans.len() == lines.len(),
                    line@ == lines[li as int],
                    term@ == search_term@,
                    lines == lines_of(content@),
                    all == file_hits(lines, search_term@, lines.len() as int),
                    offsets_view(hits@) == term_hits(lines[li as int], search_term@),
                    term.len() > 0 ==> forall|i: int|
                        0 <= i < hits.len() ==> (#[trigger] hits[i]) + term.len() <= line.len(),
                    here == term_hits(lines[li as int], search_term@).map_values(
                        |p: int| (li as int, p),
                    ),
                    before == file_hits(lines, search_term@, li as int),
                    file_hits(lines, search_term@, li + 1) == before + here,
                    r.len() == before.len() + j,
                    r.len() <= limit,
                    forall|i: int|
                        0 <= i < r.len() ==> is_search_match(
                            #[trigger] r[i],
                            file@,
                            lines,
                            search_term@,
                            (before + here)[i],
                        ),
                decreases hits.len() - j,
            {
                if r.len() >= limit {
                    proof {
                        lemma_file_hits_prefix(lines, search_term@, li + 1, lines.len() as int);
                        let upto = file_hits(lines, search_term@, li + 1);
                        assert(here.len() == hits.len());
                        assert(upto.len() == before.len() + here.len());
                        assert forall|i: int| 0 <= i < r.len() implies all[i] == (before + here)[i] by {
                            assert(all.take(upto.len() as int)[i] == upto[i]);
                        }
                    }
                    return r;
                }
                let start = hits[j];
                proof {
                    assert(offsets_view(hits@)[j as int] == start as int);
                    assert(here[j as int] == (li as int, start as int));
                    assert((before + here)[r.len() as int] == here[j as int]);
                }
                let end: usize = if term.len() == 0 {
                    start
                } else {
                    start + term.len()
                };
                r.push(
                    SearchMatch {
                        file: file.to_owned(),
                        line_number: li + 1,
                        line_content: from_chars(line.as_slice()),
                        match_start: start,
                        match_end: end,
                    },
                );
                j += 1;
            }
            proof {
                assert(r.len() == file_hits(lines, search_term@, li + 1).len());
            }
            li += 1;
        }
        proof {
            let n = lines.len() as int;
            assert(file_hits(lines, search_term@, n) == all);
        }
        r
    }
}

/// Tool for searching content across directories.
pub struct SearchDirTool {
    name: String,
}

impl SearchDirTool {
    pub fn new() -> (r: Self)
        ensures
            r.spec_name() == "search_dir"@,
    {
        SearchDirTool { name: "search_dir".to_owned() }
    }

    /// The name under which the tool is registered.
    pub closed spec fn spec_name(&self) -> Seq<char> {
        self.name@
    }

    pub fn name(&self) -> (r: &str)
        ensures
            r@ == self.spec_name(),
    {
        self.name.as_str()
    }

    pub fn description(&self) -> (r: &'static str)
        ensures
            r@ == "Searches for search_term in all files in dir. If dir is not provided, searches in the current directory"@,
    {
        "Searches for search_term in all files in dir. If dir is not provided, searches in the current directory"
    }

    pub fn signature(&self) -> (r: &'static str)
        ensures
            r@ == "search_dir <search_term> [<dir>]"@,
    {
        "search_dir <search_term> [<dir>]"
    }

    /// The arguments must give a search term.
    pub fn validate_args(&self, args: &ToolArgs) -> (r: Result<(), ToolError>)
        ensures
            is_validation(r, needs_positional(*args, "Usage: search_dir <search_term> [<dir>]"@)),
    {
        require_positional(args, "Usage: search_dir <search_term> [<dir>]")
    }
}


/// The message for a search that found nothing.
pub open spec fn nothing_found(term: Seq<char>, place: Seq<char>) -> Seq<char> {
    "No matches found for \""@ + term + "\" in "@ + place
}

/// The first line of a report: how many matches were found for what, and
/// where.
pub open spec fn found_header(count: nat, term: Seq<char>, place: Seq<char>) -> Seq<char> {
    "Found "@ + decimal(count) + " matches for \""@ + term + "\" in "@ + place
}

/// The texts `paths`, each on a line of its own.
pub open spec fn path_lines(paths: Seq<String>) -> Seq<char>
    decreases paths.len(),
{
    if paths.len() == 0 {
        Seq::empty()
    } else {
        path_lines(paths.drop_last()) + paths.last()@ + seq!['\n']
    }
}

/// The report of the files found for a pattern: a header and the paths,
/// one on each line, without white space around the whole.
pub open spec fn find_report(pattern: Seq<char>, dir: Seq<char>, paths: Seq<String>) -> Seq<char> {
    if paths.len() == 0 {
        nothing_found(pattern, dir)
    } else {
        trim(found_header(paths.len(), pattern, dir) + ":\n"@ + path_lines(paths))
    }
}

fn trimmed(text: &Vec<char>) -> (r: String)
    ensures
        r@ == trim(text@),
{
    let b = trim_start_index(text.as_slice(), 0, text.len());
    let e = trim_end_index(text.as_slice(), b, text.len());
    let t = slice_to_vec(text.as_slice(), b, e);
    proof {
        assert(text@.subrange(0, text.len() as int) == text@);
        assert(trim_start(text@) == text@.subrange(b as int, text.len() as int));
    }
    from_chars(t.as_slice())
}

fn push_nothing_found(out: &mut Vec<char>, term: &str, place: &str)
    ensures
        final(out)@ == old(out)@ + nothing_found(term@, place@),
{
    push_str(out, "No matches found for \"");
    push_str(out, term);
    push_str(out, "\" in ");
    push_str(out, place);
}

fn push_found_header(out: &mut Vec<char>, count: u128, term: &str, place: &str)
    ensures
        final(out)@ == old(out)@ + found_header(count as nat, term@, place@),
{
    push_str(out, "Found ");
    push_decimal_wide(out, count);
    push_str(out, " matches for \"");
    push_str(out, term);
    push_str(out, "\" in ");
    push_str(out, place);
}

impl FindFileTool {
    /// The report of the files found for `pattern` in `dir`.
    pub fn format_results(pattern: &str, dir: &str, paths: &Vec<String>) -> (r: String)
        ensures
            r@ == find_report(pattern@, dir@, paths@),
    {
        let mut out: Vec<char> = Vec::new();
        if paths.len() == 0 {
            push_nothing_found(&mut out, pattern, dir);
            return from_chars(out.as_slice());
        }
        push_found_header(&mut out, paths.len() as u128, pattern, dir);
        push_str(&mut out, ":\n");
        let ghost head = out@;
        let mut i: usize = 0;
        assert(paths@.take(0) == Seq::<String>::empty());
        while i < paths.len()
            invariant
                i <= paths.len(),
                out@ == head + path_lines(paths@.take(i as int)),
            decreases paths.len() - i,
        {
            proof {
                assert(paths@.take(i + 1).drop_last() == paths@.take(i as int));
                assert(paths@.take(i + 1).last() == paths@[i as int]);
            }
            push_str(&mut out, paths[i].as_str());
            out.push('\n');
            i += 1;
        }
        assert(paths@.take(paths.len() as int) == paths@);
        trimmed(&out)
    }
}

/// `count` copies of `c`.
pub open spec fn repeated(c: char, count: nat) -> Seq<char> {
    Seq::new(count, |i: int| c)
}

fn push_repeated(out: &mut Vec<char>, c: char, count: usize)
    ensures
        final(out)@ == old(out)@ + repeated(c, count as nat),
{
    let mut k: usize = 0;
    assert(out@ == old(out)@ + repeated(c, 0));
    while k < count
        invariant
            k <= count,
            out@ == old(out)@ + repeated(c, k as nat),
        decreases count - k,
    {
        out.push(c);
        k += 1;
        assert(out@ == old(out)@ + repeated(c, k as nat));
    }
}

/// The start of the entry for match `i` (0-based): its number and its
/// line.
pub open spec fn entry_indent(i: int, line_number: usize) -> Seq<char> {
    decimal((i + 1) as nat) + ". Line "@ + decimal(line_number as nat) + ": "@
}

/// The entry for match `i` in the report of a file: the line without the
/// white space around it, and under it carets as wide as the match, as far
/// in as the match starts.
pub open spec fn match_entry(i: int, m: SearchMatch) -> Seq<char> {
    let indent = entry_indent(i, m.line_number);
    indent + trim(m.line_content@) + seq!['\n'] + repeated(' ', indent.len()) + repeated(
        ' ',
        m.match_start as nat,
    ) + repeated('^', (m.match_end - m.match_start) as nat) + "\n\n"@
}

/// The entries for the first `upto` matches.
pub open spec fn match_entries(matches: Seq<SearchMatch>, upto: int) -> Seq<char>
    decreases upto,
{
    if upto <= 0 {
        Seq::empty()
    } else {
        match_entries(matches, upto - 1) + match_entry(upto - 1, matches[upto - 1])
    }
}

/// The report of the matches found in a file: a header and an entry for
/// each match, without white space around the whole.
pub open spec fn file_report(term: Seq<char>, file: Seq<char>, matches: Seq<SearchMatch>) -> Seq<
    char,
> {
    if matches.len() == 0 {
        nothing_found(term, file)
    } else {
        trim(
            found_header(matches.len(), term, file) + ":\n\n"@ + match_entries(
                matches,
                matches.len() as int,
            ),
        )
    }
}

fn push_trimmed(out: &mut Vec<char>, text: &str)
    ensures
        final(out)@ == old(out)@ + trim(text@),
{
    let chars = to_chars(text);
    let b = trim_start_index(chars.as_slice(), 0, chars.len());
    let e = trim_end_index(chars.as_slice(), b, chars.len());
    let t = slice_to_vec(chars.as_slice(), b, e);
    proof {
        assert(chars@.subrange(0, chars.len() as int) == chars@);
        assert(trim_start(chars@) == chars@.subrange(b as int, chars.len() as int));
    }
    extend_chars(out, t.as_slice());
}

impl SearchFileTool {
    /// The report of the matches found for `search_term` in `file`.
    pub fn format_results(search_term: &str, file: &str, matches: &Vec<SearchMatch>) -> (r: String)
        requires
            forall|i: int|
                0 <= i < matches.len() ==> (#[trigger] matches[i]).match_start
                    <= matches[i].match_end,
        ensures
            r@ == file_report(search_term@, file@, matches@),
    {
        let mut out: Vec<char> = Vec::new();
        if matches.len() == 0 {
            push_nothing_found(&mut out, search_term, file);
            return from_chars(out.as_slice());
        }
        push_found_header(&mut out, matches.len() as u128, search_term, file);
        push_str(&mut out, ":\n\n");
        let ghost head = out@;
        let mut i: usize = 0;
        while i < matches.len()
            invariant
                i <= matches.len(),
                forall|j: int|
                    0 <= j < matches.len() ==> (#[trigger] matches[j]).match_start
                        <= matches[j].match_end,
                out@ == head + match_entries(matches@, i as int),
            decreases matches.len() - i,
        {
            let m = &matches[i];
            let ghost before = out@;
            let mut indent: Vec<char> = Vec::new();
            push_decimal_wide(&mut indent, i as u128 + 1);
            push_str(&mut indent, ". Line ");
            push_decimal(&mut indent, m.line_number);
            push_str(&mut indent, ": ");
            assert(indent@ == entry_indent(i as int, m.line_number));
            extend_chars(&mut out, indent.as_slice());
            push_trimmed(&mut out, m.line_content.as_str());
            out.push('\n');
            push_repeated(&mut out, ' ', indent.len());
            push_repeated(&mut out, ' ', m.match_start);
            push_repeated(&mut out, '^', m.match_end - m.match_start);
            push_str(&mut out, "\n\n");
            assert(out@ == before + match_entry(i as int, *m));
            i += 1;
        }
        trimmed(&out)
    }
}

/// The matches found in one file.
#[derive(Debug)]
pub struct FileMatches {
    pub file: String,
    pub matches: Vec<SearchMatch>,
}

/// The number of matches in the first `upto` files.
pub open spec fn total_matches(groups: Seq<FileMatches>, upto: int) -> nat
    decreases upto,
{
    if upto <= 0 {
        0
    } else {
        total_matches(groups, upto - 1) + groups[upto - 1].matches.len() as nat
    }
}

/// Whether `order` lists every index below `count` once.
pub open spec fn is_ordering(order: Seq<usize>, count: nat) -> bool {
    &&& order.len() == count
    &&& forall|i: int| 0 <= i < order.len() ==> (#[trigger] order[i]) < count
    &&& forall|i: int, j: int|
        0 <= i < j < order.len() ==> (#[trigger] order[i]) != (#[trigger] order[j])
}

/// Whether the files come in `order` with the most matches first.
pub open spec fn by_count(order: Seq<usize>, groups: Seq<FileMatches>) -> bool {
    forall|i: int, j: int|
        0 <= i < j < order.len() ==> groups[(#[trigger] order[i]) as int].matches.len()
            >= groups[(#[trigger] order[j]) as int].matches.len()
}

/// The most files shown in the report of a directory.
pub const MAX_FILES_SHOWN: usize = 20;

/// The most matches shown for one file in the report of a directory.
pub const MAX_MATCHES_SHOWN: usize = 5;

/// The line for match `i` (0-based) of a file in the report of a
/// directory.
pub open spec fn short_entry(i: int, m: SearchMatch) -> Seq<char> {
    "  "@ + decimal((i + 1) as nat) + ". Line "@ + decimal(m.line_number as nat) + ": "@ + trim(
        m.line_content@,
    ) + seq!['\n']
}

/// The lines for the first `upto` matches of a file.
pub open spec fn short_entries(matches: Seq<SearchMatch>, upto: int) -> Seq<char>
    decreases upto,
{
    if upto <= 0 {
        Seq::empty()
    } else {
        short_entries(matches, upto - 1) + short_entry(upto - 1, matches[upto - 1])
    }
}

/// The smaller of two numbers.
pub open spec fn at_most(n: int, limit: int) -> int {
    if n <= limit {
        n
    } else {
        limit
    }
}

/// The part of the report of a directory that shows one file: its path
/// and number of matches, its first matches, and how many more there are.
pub open spec fn file_section(g: FileMatches) -> Seq<char> {
    "📁 "@ + g.file@ + " ("@ + decimal(g.matches.len() as nat) + " matches):\n"@ + short_entries(
        g.matches@,
        at_most(g.matches.len() as int, MAX_MATCHES_SHOWN as int),
    ) + (if g.matches.len() > MAX_MATCHES_SHOWN {
        "  ... and "@ + decimal((g.matches.len() - MAX_MATCHES_SHOWN) as nat) + " more matches\n"@
    } else {
        Seq::empty()
    }) + seq!['\n']
}

/// The sections of the first `upto` files in `order`.
pub open spec fn file_sections(groups: Seq<FileMatches>, order: Seq<usize>, upto: int) -> Seq<char>
    decreases upto,
{
    if upto <= 0 {
        Seq::empty()
    } else {
        file_sections(groups, order, upto - 1) + file_section(groups[order[upto - 1] as int])
    }
}

/// The report of the matches found in a directory: a header, a section
/// for each of the first files in `order`, and how many more files there
/// are, without white space around the whole.
pub open spec fn directory_report(
    term: Seq<char>,
    dir: Seq<char>,
    groups: Seq<FileMatches>,
    order: Seq<usize>,
) -> Seq<char> {
    if groups.len() == 0 {
        nothing_found(term, dir)
    } else {
        trim(
            found_header(total_matches(groups, groups.len() as int), term, dir) + " across "@
                + decimal(groups.len()) + " files:\n\n"@ + file_sections(
                groups,
                order,
                at_most(groups.len() as int, MAX_FILES_SHOWN as int),
            ) + (if groups.len() > MAX_FILES_SHOWN {
                "... and "@ + decimal((groups.len() - MAX_FILES_SHOWN) as nat)
                    + " more files with matches\n"@
            } else {
                Seq::empty()
            }),
        )
    }
}

impl SearchDirTool {
    /// An order of the files with the most matches first.
    pub fn order_by_count(groups: &Vec<FileMatches>) -> (order: Vec<usize>)
        ensures
            is_ordering(order@, groups.len() as nat),
            by_count(order@, groups@),
    {
        let n = groups.len();
        let mut used: Vec<bool> = Vec::new();
        let mut k: usize = 0;
        while k < n
            invariant
                k <= n,
                used.len() == k,
                forall|i: int| 0 <= i < k ==> !(#[trigger] used[i]),
            decreases n - k,
        {
            used.push(false);
            k += 1;
        }
        let mut order: Vec<usize> = Vec::new();
        while order.len() < n
            invariant
                n == groups.len(),
                used.len() == n,
                order.len() <= n,
                forall|i: int| 0 <= i < order.len() ==> (#[trigger] order[i]) < n,
                forall|i: int| 0 <= i < order.len() ==> used[(#[trigger] order[i]) as int],
                forall|i: int, j: int|
                    0 <= i < j < order.len() ==> (#[trigger] order[i]) != (#[trigger] order[j]),
                forall|u: int|
                    0 <= u < n && (#[trigger] used[u]) ==> exists|i: int|
                        0 <= i < order.len() && order[i] == u,
                by_count(order@, groups@),
                forall|i: int, u: int|
                    0 <= i < order.len() && 0 <= u < n && !(#[trigger] used[u]) ==> groups[(
                    #[trigger] order[i]) as int].matches.len() >= groups[u].matches.len(),
            decreases n - order.len(),
        {
            // The file with the most matches among those not yet listed.
            let mut best: Option<usize> = None;
            let mut u: usize = 0;
            while u < n
                invariant
                    u <= n,
                    n == groups.len(),
                    used.len() == n,
                    match best {
                        Some(b) => b < u && !used[b as int] && forall|v: int|
                            0 <= v < u && !(#[trigger] used[v]) ==> groups[b as int].matches.len()
                                >= groups[v].matches.len(),
                        None => forall|v: int| 0 <= v < u ==> #[trigger] used[v],
                    },
                decreases n - u,
            {
                if !used[u] {
                    let better = match best {
                        Some(b) => groups[u].matches.len() > groups[b].matches.len(),
                        None => true,
                    };
                    if better {
                        best = Some(u);
                    }
                }
                u += 1;
            }
            match best {
                Some(b) => {
                    let ghost before = order@;
                    used.set(b, true);
                    order.push(b);
                    proof {
                        assert forall|x: int|
                            0 <= x < n && (#[trigger] used[x]) implies exists|i: int|
                            0 <= i < order.len() && order[i] == x by {
                            if x == b {
                                assert(order[order.len() - 1] == b);
                            } else {
                                let i = choose|i: int| 0 <= i < before.len() && before[i] == x;
                                assert(order[i] == x);
                            }
                        }
                    }
                },
                None => {
                    // Every file is listed: with distinct entries below `n`
                    // the order is complete.
                    proof {
                        lemma_all_used(order@, used@);
                    }
                    return order;
                },
            }
        }
        order
    }

    /// The report of the matches found for `search_term` in `dir`, with the
    /// files in `order`.
    pub fn format_results(
        search_term: &str,
        dir: &str,
        groups: &Vec<FileMatches>,
        order: &Vec<usize>,
    ) -> (r: String)
        requires
            is_ordering(order@, groups.len() as nat),
        ensures
            r@ == directory_report(search_term@, dir@, groups@, order@),
    {
        let mut out: Vec<char> = Vec::new();
        if groups.len() == 0 {
            push_nothing_found(&mut out, search_term, dir);
            return from_chars(out.as_slice());
        }
        push_found_header(&mut out, count_total(groups), search_term, dir);
        push_str(&mut out, " across ");
        push_decimal(&mut out, groups.len());
        push_str(&mut out, " files:\n\n");
        let shown: usize = if groups.len() <= MAX_FILES_SHOWN {
            groups.len()
        } else {
            MAX_FILES_SHOWN
        };
        let ghost head = out@;
        let mut i: usize = 0;
        while i < shown
            invariant
                i <= shown <= groups.len(),
                is_ordering(order@, groups.len() as nat),
                out@ == head + file_sections(groups@, order@, i as int),
            decreases shown - i,
        {
            push_file_section(&mut out, &groups[order[i]]);
            i += 1;
        }
        let ghost body = out@;
        if groups.len() > MAX_FILES_SHOWN {
            push_str(&mut out, "... and ");
            push_decimal(&mut out, groups.len() - MAX_FILES_SHOWN);
            push_str(&mut out, " more files with matches\n");
        }
        proof {
            let tail: Seq<char> = if groups.len() > MAX_FILES_SHOWN {
                "... and "@ + decimal((groups.len() - MAX_FILES_SHOWN) as nat)
                    + " more files with matches\n"@
            } else {
                Seq::empty()
            };
            assert(out@ == body + tail);
            assert(shown == at_most(groups.len() as int, MAX_FILES_SHOWN as int));
        }
        trimmed(&out)
    }
}

fn count_total(groups: &Vec<FileMatches>) -> (total: u128)
    ensures
        total == total_matches(groups@, groups.len() as int),
{
    let mut total: u128 = 0;
    let mut g: usize = 0;
    while g < groups.len()
        invariant
            g <= groups.len(),
            total == total_matches(groups@, g as int),
            total <= g * usize::MAX,
        decreases groups.len() - g,
    {
        assert((g + 1) * usize::MAX == g * usize::MAX + usize::MAX) by (nonlinear_arith);
        assert(g * usize::MAX <= usize::MAX * usize::MAX) by (nonlinear_arith)
            requires
                g <= usize::MAX,
        ;
        total = total + groups[g].matches.len() as u128;
        g += 1;
    }
    total
}

fn push_short_entry(out: &mut Vec<char>, j: usize, m: &SearchMatch)
    requires
        j < usize::MAX,
    ensures
        final(out)@ == old(out)@ + short_entry(j as int, *m),
{
    push_str(out, "  ");
    push_decimal(out, j + 1);
    push_str(out, ". Line ");
    push_decimal(out, m.line_number);
    push_str(out, ": ");
    push_trimmed(out, m.line_content.as_str());
    out.push('\n');
}

fn push_file_section(out: &mut Vec<char>, group: &FileMatches)
    ensures
        final(out)@ == old(out)@ + file_section(*group),
{
    push_str(out, "📁 ");
    push_str(out, group.file.as_str());
    push_str(out, " (");
    push_decimal(out, group.matches.len());
    push_str(out, " matches):\n");
    let listed: usize = if group.matches.len() <= MAX_MATCHES_SHOWN {
        group.matches.len()
    } else {
        MAX_MATCHES_SHOWN
    };
    let ghost top = out@;
    let mut j: usize = 0;
    while j < listed
        invariant
            j <= listed <= group.matches.len(),
            listed <= MAX_MATCHES_SHOWN,
            out@ == top + short_entries(group.matches@, j as int),
        decreases listed - j,
    {
        push_short_entry(out, j, &group.matches[j]);
        j += 1;
    }
    let ghost middle = out@;
    if group.matches.len() > MAX_MATCHES_SHOWN {
        push_str(out, "  ... and ");
        push_decimal(out, group.matches.len() - MAX_MATCHES_SHOWN);
        push_str(out, " more matches\n");
    }
    proof {
        let more: Seq<char> = if group.matches.len() > MAX_MATCHES_SHOWN {
            "  ... and "@ + decimal((group.matches.len() - MAX_MATCHES_SHOWN) as nat)
                + " more matches\n"@
        } else {
            Seq::empty()
        };
        assert(out@ == middle + more);
        assert(listed == at_most(group.matches.len() as int, MAX_MATCHES_SHOWN as int));
    }
    out.push('\n');
}

/// Distinct indices that cover every index that is marked cover all
/// indices once all are marked.
proof fn lemma_all_used(order: Seq<usize>, used: Seq<bool>)
    requires
        order.len() <= used.len(),
        forall|i: int| 0 <= i < order.len() ==> (#[trigger] order[i]) < used.len(),
        forall|i: int, j: int|
            0 <= i < j < order.len() ==> (#[trigger] order[i]) != (#[trigger] order[j]),
        forall|u: int|
            0 <= u < used.len() && (#[trigger] used[u]) ==> exists|i: int|
                0 <= i < order.len() && order[i] == u,
        forall|u: int| 0 <= u < used.len() ==> #[trigger] used[u],
    ensures
        order.len() == used.len(),
{
    let n = used.len() as int;
    // Every index below `n` stands in `order`, so `order` holds at least
    // `n` entries.
    let indices = Set::new(|u: int| 0 <= u < n);
    let listed = order.map_values(|x: usize| x as int).to_set();
    assert forall|u: int| indices.contains(u) implies listed.contains(u) by {
        assert(used[u]);
        let i = choose|i: int| 0 <= i < order.len() && order[i] == u;
        assert(order.map_values(|x: usize| x as int)[i] == u);
    }
    vstd::set_lib::lemma_int_range(0, n);
    assert(indices =~= vstd::set_lib::set_int_range(0, n));
    order.map_values(|x: usize| x as int).lemma_cardinality_of_set();
    vstd::set_lib::lemma_len_subset(indices, listed);
}

} // verus!
