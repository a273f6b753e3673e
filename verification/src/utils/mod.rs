//! Utility tools: task classification, file maps and submission.

pub mod count_tokens;

use crate::editing::normalize::lowercase_of;
use crate::params::{is_validation, needs_positional, require_positional};
use crate::paths::{extension_of_name, file_name, name_extension, path_file_name};
use crate::text::{
    chars_eq, from_chars, leading_whitespace, matches_at, matches_at_exec, push_str, string_texts,
    to_chars, trim, trim_end, trim_end_index, trim_start, trim_start_index,
};
use crate::tool_core::{str_eq, ToolArgs, ToolError};
use vstd::prelude::*;

verus! {

/// Tool for task classification.
pub struct ClassifyTaskTool {
    name: String,
}

/// Whether `t` is one of the task types.
pub open spec fn is_task_type(t: Seq<char>) -> bool {
    t == "bug_fix"@ || t == "feature"@ || t == "maintenance"@ || t == "query"@
}

impl ClassifyTaskTool {
    pub fn new() -> (r: Self)
        ensures
            r.spec_name() == "classify_task"@,
    {
        ClassifyTaskTool { name: "classify_task".to_owned() }
    }

    /// The name under which the tool is registered.
    pub closed spec fn spec_name(&self) -> Seq<char> {
        self.name@
    }

    pub fn name(&self) -> (r: &str)
        ensures
            r@ == self.spec_name(),
    {
        self.name.as_str()
    }

    pub fn description(&self) -> (r: &'static str)
        ensures
            r@ == "Classify a task request into one of the supported categories: bug_fix, feature, maintenance, or query"@,
    {
        "Classify a task request into one of the supported categories: bug_fix, feature, maintenance, or query"
    }

    pub fn signature(&self) -> (r: &'static str)
        ensures
            r@ == "classify_task <task_type>"@,
    {
        "classify_task <task_type>"
    }

    /// What validation owes: a task type must be given, and be one of the
    /// four.
    pub open spec fn validation(args: ToolArgs) -> Result<(), Seq<char>> {
        if args.args.len() == 0 {
            Err(
                "Usage: classify_task <task_type>. Valid types: bug_fix, feature, maintenance, query"@,
            )
        } else if !is_task_type(args.args[0]@) {
            Err(
                "Invalid task type: "@ + args.args[0]@
                    + ". Valid types: bug_fix, feature, maintenance, query"@,
            )
        } else {
            Ok(())
        }
    }

    pub fn validate_args(&self, args: &ToolArgs) -> (r: Result<(), ToolError>)
        ensures
            is_validation(r, Self::validation(*args)),
    {
        match args.get_arg(0) {
            None => Err(
                ToolError::InvalidArgs {
                    message: "Usage: classify_task <task_type>. Valid types: bug_fix, feature, maintenance, query".to_owned(),
                },
            ),
            Some(t) => {
                let s = t.as_str();
                if str_eq(s, "bug_fix") || str_eq(s, "feature") || str_eq(s, "maintenance")
                    || str_eq(s, "query") {
                    Ok(())
                } else {
                    let mut msg: Vec<char> = Vec::new();
                    push_str(&mut msg, "Invalid task type: ");
                    push_str(&mut msg, s);
                    push_str(&mut msg, ". Valid types: bug_fix, feature, maintenance, query");
                    Err(ToolError::InvalidArgs { message: from_chars(msg.as_slice()) })
                }
            },
        }
    }

    /// The record of a classification in the history.
    pub fn history_record(&self, task_type: &str) -> (r: String)
        ensures
            r@ == "Classified task as: "@ + task_type@,
    {
        let mut out: Vec<char> = Vec::new();
        push_str(&mut out, "Classified task as: ");
        push_str(&mut out, task_type);
        from_chars(out.as_slice())
    }

    /// The message that reports a classification.
    pub fn report(&self, task_type: &str) -> (r: String)
        ensures
            r@ == "Task classified as: "@ + task_type@,
    {
        let mut out: Vec<char> = Vec::new();
        push_str(&mut out, "Task classified as: ");
        push_str(&mut out, task_type);
        from_chars(out.as_slice())
    }
}

/// Tool that maps the structure of a directory or the outline of a file.
pub struct FilemapTool {
    name: String,
}

/// The names of directories that a file map leaves out.
pub open spec fn is_build_dir(name: Seq<char>) -> bool {
    name == "target"@ || name == "node_modules"@ || name == "__pycache__"@ || name == "dist"@
        || name == "build"@ || name == ".git"@ || name == ".svn"@ || name == ".hg"@ || name
        == "venv"@ || name == "env"@ || name == ".venv"@
}

/// The extensions of files that a file map leaves out.
pub open spec fn is_binary_extension(ext: Seq<char>) -> bool {
    ext == "exe"@ || ext == "dll"@ || ext == "so"@ || ext == "dylib"@ || ext == "a"@ || ext == "o"@
        || ext == "pyc"@ || ext == "png"@ || ext == "jpg"@ || ext == "jpeg"@ || ext == "gif"@
        || ext == "bmp"@ || ext == "ico"@ || ext == "mp3"@ || ext == "mp4"@ || ext == "avi"@
        || ext == "mov"@ || ext == "wav"@ || ext == "pdf"@ || ext == "zip"@ || ext == "tar"@
        || ext == "gz"@ || ext == "rar"@ || ext == "7z"@
}

/// Whether a file map shows the file at `path`: unless its name starts
/// with a dot, is that of a build directory, or has the extension, in any
/// case, of a binary file.
pub open spec fn in_filemap(path: Seq<char>) -> bool {
    match file_name(path) {
        None => true,
        Some(name) => !(name.len() > 0 && name[0] == '.') && !is_build_dir(name) && match extension_of_name(
            name,
        ) {
            Some(ext) => !is_binary_extension(lowercase_of(ext)),
            None => true,
        },
    }
}

/// Whether `line`, after its leading white space, starts with `prefix`.
pub open spec fn starts_after_indent(line: Seq<char>, prefix: Seq<char>) -> bool {
    matches_at(trim_start(line), prefix, 0)
}

/// Whether `line`, before its trailing white space, ends with a colon.
pub open spec fn ends_with_colon(line: Seq<char>) -> bool {
    trim_end(line).len() > 0 && trim_end(line).last() == ':'
}

/// Whether a line starts a block that an outline may elide: a definition
/// of a function, a class or an implementation, or a Python `if`, `for` or
/// `while`.
pub open spec fn block_start(line: Seq<char>) -> bool {
    starts_after_indent(line, "def "@) || starts_after_indent(line, "class "@)
        || starts_after_indent(line, "fn "@) || starts_after_indent(line, "function "@)
        || starts_after_indent(line, "impl "@) || (starts_after_indent(line, "if "@)
        && ends_with_colon(line)) || (starts_after_indent(line, "for "@) && ends_with_colon(line))
        || (starts_after_indent(line, "while "@) && ends_with_colon(line))
}

/// The indentation of a line: the number of white-space characters at its
/// start.
pub open spec fn indent_of(line: Seq<char>) -> int {
    leading_whitespace(line)
}

/// Whether a line is blank or a comment, so that it does not end a block.
/// A comment starts with `#`, or, where `slashes` is set, with `//`.
pub open spec fn is_filler(line: Seq<char>, slashes: bool) -> bool {
    trim(line).len() == 0 || (slashes && matches_at(trim(line), "//"@, 0)) || matches_at(
        trim(line),
        "#"@,
        0,
    )
}

/// Where the scan for the end of a block stops, from line `at` on: at the
/// first line that is no filler and is indented no deeper than `indent`,
/// once a deeper line was seen.
pub open spec fn block_scan(
    lines: Seq<Seq<char>>,
    indent: int,
    at: int,
    found_body: bool,
    slashes: bool,
) -> int
    decreases lines.len() - at,
{
    if at < 0 || at >= lines.len() {
        at
    } else if is_filler(lines[at], slashes) {
        block_scan(lines, indent, at + 1, found_body, slashes)
    } else if indent_of(lines[at]) <= indent && found_body {
        at
    } else {
        block_scan(lines, indent, at + 1, found_body || indent_of(lines[at]) > indent, slashes)
    }
}

/// The last line of the block that starts at line `start` (0-based).
pub open spec fn block_end(lines: Seq<Seq<char>>, start: int) -> int {
    if start >= lines.len() {
        start
    } else {
        block_scan(lines, indent_of(lines[start]), start + 1, false, true) - 1
    }
}

fn starts_after_indent_exec(line: &[char], prefix: &str) -> (r: bool)
    ensures
        r == starts_after_indent(line@, prefix@),
{
    let b = trim_start_index(line, 0, line.len());
    let t = crate::text::slice_to_vec(line, b, line.len());
    proof {
        assert(line@.subrange(0, line.len() as int) == line@);
        assert(t@ == trim_start(line@));
    }
    let p = to_chars(prefix);
    matches_at_exec(t.as_slice(), p.as_slice(), 0)
}

fn ends_with_colon_exec(line: &[char]) -> (r: bool)
    ensures
        r == ends_with_colon(line@),
{
    let e = trim_end_index(line, 0, line.len());
    proof {
        assert(line@.subrange(0, line.len() as int) == line@);
    }
    e > 0 && line[e - 1] == ':'
}

fn is_filler_exec(line: &[char], slashes: bool) -> (r: bool)
    ensures
        r == is_filler(line@, slashes),
{
    let b = trim_start_index(line, 0, line.len());
    let e = trim_end_index(line, b, line.len());
    let t = crate::text::slice_to_vec(line, b, e);
    proof {
        assert(line@.subrange(0, line.len() as int) == line@);
        assert(trim_start(line@) == line@.subrange(b as int, line.len() as int));
        assert(t@ == trim(line@));
    }
    let two_slashes = to_chars("//");
    let hash = to_chars("#");
    t.len() == 0 || (slashes && matches_at_exec(t.as_slice(), two_slashes.as_slice(), 0))
        || matches_at_exec(t.as_slice(), hash.as_slice(), 0)
}

fn indent_of_exec(line: &[char]) -> (r: usize)
    ensures
        r == indent_of(line@),
{
    let b = trim_start_index(line, 0, line.len());
    proof {
        assert(line@.subrange(0, line.len() as int) == line@);
    }
    b
}

impl FilemapTool {
    pub fn new() -> (r: Self)
        ensures
            r.spec_name() == "filemap"@,
    {
        FilemapTool { name: "filemap".to_owned() }
    }

    /// The name under which the tool is registered.
    pub closed spec fn spec_name(&self) -> Seq<char> {
        self.name@
    }

    pub fn name(&self) -> (r: &str)
        ensures
            r@ == self.spec_name(),
    {
        self.name.as_str()
    }

    pub fn description(&self) -> (r: &'static str)
        ensures
            r@ == "Generate a file structure map or show file contents with abbreviated view"@,
    {
        "Generate a file structure map or show file contents with abbreviated view"
    }

    pub fn signature(&self) -> (r: &'static str)
        ensures
            r@ == "filemap <file_path>"@,
    {
        "filemap <file_path>"
    }

    /// The arguments must name a path.
    pub fn validate_args(&self, args: &ToolArgs) -> (r: Result<(), ToolError>)
        ensures
            is_validation(r, needs_positional(*args, "Usage: filemap <file_path>"@)),
    {
        require_positional(args, "Usage: filemap <file_path>")
    }

    /// Whether a file map shows the file at `path`.
    pub fn should_include_file(path: &str) -> (r: bool)
        ensures
            r == in_filemap(path@),
    {
        let name = match path_file_name(path) {
            None => {
                return true;
            },
            Some(n) => n,
        };
        if name.len() > 0 && name[0] == '.' {
            return false;
        }
        let name_text = from_chars(name.as_slice());
        let n = name_text.as_str();
        if str_eq(n, "target") || str_eq(n, "node_modules") || str_eq(n, "__pycache__") || str_eq(
            n,
            "dist",
        ) || str_eq(n, "build") || str_eq(n, ".git") || str_eq(n, ".svn") || str_eq(n, ".hg")
            || str_eq(n, "venv") || str_eq(n, "env") || str_eq(n, ".venv") {
            return false;
        }
        match name_extension(name.as_slice()) {
            None => true,
            Some(ext) => {
                let lower = from_chars(ext.as_slice()).as_str().to_lowercase();
                let e = lower.as_str();
                !(str_eq(e, "exe") || str_eq(e, "dll") || str_eq(e, "so") || str_eq(e, "dylib")
                    || str_eq(e, "a") || str_eq(e, "o") || str_eq(e, "pyc") || str_eq(e, "png")
                    || str_eq(e, "jpg") || str_eq(e, "jpeg") || str_eq(e, "gif") || str_eq(
                    e,
                    "bmp",
                ) || str_eq(e, "ico") || str_eq(e, "mp3") || str_eq(e, "mp4") || str_eq(e, "avi")
                    || str_eq(e, "mov") || str_eq(e, "wav") || str_eq(e, "pdf") || str_eq(e, "zip")
                    || str_eq(e, "tar") || str_eq(e, "gz") || str_eq(e, "rar") || str_eq(e, "7z"))
            },
        }
    }

    /// Whether `line` starts a block that an outline may elide.
    pub fn is_block_start(line: &str) -> (r: bool)
        ensures
            r == block_start(line@),
    {
        let l = to_chars(line);
        let s = l.as_slice();
        starts_after_indent_exec(s, "def ") || starts_after_indent_exec(s, "class ")
            || starts_after_indent_exec(s, "fn ") || starts_after_indent_exec(s, "function ")
            || starts_after_indent_exec(s, "impl ") || (starts_after_indent_exec(s, "if ")
            && ends_with_colon_exec(s)) || (starts_after_indent_exec(s, "for ")
            && ends_with_colon_exec(s)) || (starts_after_indent_exec(s, "while ")
            && ends_with_colon_exec(s))
    }

    /// The last line (0-based) of the block that starts at line `start`:
    /// the line before the first line that, after the block's body began,
    /// is indented no deeper than the line at `start`. Blank lines and
    /// comments do not end a block.
    pub fn find_block_end(lines: &Vec<String>, start: usize) -> (r: usize)
        ensures
            r == block_end(string_texts(lines@), start as int),
            start < lines.len() ==> start <= r < lines.len(),
    {
        if start >= lines.len() {
            return start;
        }
        scan_block(lines, start, true) - 1
    }

    /// The outline of a file: every line with its number, the bodies of
    /// blocks of more than five lines elided. Python files are outlined by
    /// their definitions.
    pub fn show_file_content(path: &str, content: &str) -> (r: String)
        ensures
            r@ == file_outline(path@, crate::text::lines_of(content@)),
    {
        let lines = crate::text::split_lines(content);
        let py = to_chars("py");
        let python = match crate::paths::path_extension(path) {
            Some(ext) => chars_eq(ext.as_slice(), py.as_slice()),
            None => false,
        };
        if python {
            Self::show_python_file_content(path, &lines)
        } else {
            outline(path, &lines, false)
        }
    }

    /// The outline of a Python file: every line with its number, the
    /// bodies of functions and classes of more than five lines elided.
    pub fn show_python_file_content(path: &str, lines: &Vec<String>) -> (r: String)
        ensures
            r@ == outline_text(path@, string_texts(lines@), true),
    {
        outline(path, lines, true)
    }
}

/// The most characters of an outline before it is cut.
pub const OUTLINE_LIMIT: usize = 50000;

/// The header of an outline.
pub open spec fn outline_header(path: Seq<char>, count: nat) -> Seq<char> {
    "📄 "@ + path + " ("@ + crate::text::decimal(count) + " lines)\n"@
}

/// A line of an outline: the 1-based number of line `i`, right-aligned in
/// four columns, a bar, and the line.
pub open spec fn numbered_row(i: int, line: Seq<char>) -> Seq<char> {
    crate::text::padded_decimal((i + 1) as nat, 4) + " | "@ + line + seq!['\n']
}

/// The line of an outline that stands for the elided lines `from..=to`.
pub open spec fn elision_row(from: int, to: int) -> Seq<char> {
    "     | ... eliding lines "@ + crate::text::decimal(from as nat) + "-"@ + crate::text::decimal(
        to as nat,
    ) + " ...\n"@
}

/// The numbered rows of the lines `from..to` (0-based).
pub open spec fn rows(lines: Seq<Seq<char>>, from: int, to: int) -> Seq<char>
    decreases to - from,
{
    if to <= from {
        Seq::empty()
    } else {
        rows(lines, from, to - 1) + numbered_row(to - 1, lines[to - 1])
    }
}

/// Whether a line starts a Python definition.
pub open spec fn python_definition(line: Seq<char>) -> bool {
    starts_after_indent(line, "def "@) || starts_after_indent(line, "class "@)
}

/// What the outline shows for the line at `at`, and the line at which it
/// goes on. A block of more than five lines is shown by its first line and
/// a note of what is elided; in a Python outline a definition is shown with
/// its body if that is short.
pub open spec fn outline_step(lines: Seq<Seq<char>>, at: int, python: bool) -> (Seq<char>, int) {
    if python {
        if python_definition(lines[at]) {
            let e = block_scan(lines, indent_of(lines[at]), at + 1, false, false);
            (
                numbered_row(at, lines[at]) + if e - at > 5 {
                    elision_row(at + 2, e)
                } else {
                    rows(lines, at + 1, e)
                },
                e,
            )
        } else {
            (numbered_row(at, lines[at]), at + 1)
        }
    } else if block_start(lines[at]) {
        let e = block_end(lines, at);
        if e - at > 5 {
            (numbered_row(at, lines[at]) + elision_row(at + 2, e), e)
        } else {
            (rows(lines, at, e + 1), e + 1)
        }
    } else {
        (numbered_row(at, lines[at]), at + 1)
    }
}

/// The outline from line `at` on, appended to what was written so far. It
/// is cut, with a note, once it is longer than the limit.
pub open spec fn outline_from(lines: Seq<Seq<char>>, at: int, out: Seq<char>, python: bool) -> Seq<
    char,
>
    decreases lines.len() - at,
{
    if at < 0 || at >= lines.len() {
        out
    } else {
        let step = outline_step(lines, at, python);
        let written = out + step.0;
        if written.len() > OUTLINE_LIMIT {
            written + "... (output truncated) ...\n"@
        } else if step.1 <= at || step.1 > lines.len() {
            written
        } else {
            outline_from(lines, step.1, written, python)
        }
    }
}

/// The outline of the file at `path` with the lines `lines`.
pub open spec fn outline_text(path: Seq<char>, lines: Seq<Seq<char>>, python: bool) -> Seq<char> {
    outline_from(lines, 0, outline_header(path, lines.len()), python)
}

/// The outline of a file, by the kind that its extension says.
pub open spec fn file_outline(path: Seq<char>, lines: Seq<Seq<char>>) -> Seq<char> {
    outline_text(path, lines, crate::paths::extension(path) == Some("py"@))
}

/// Where the block that starts at line `start` ends: the first line after
/// it that does not belong to it.
fn scan_block(lines: &Vec<String>, start: usize, slashes: bool) -> (r: usize)
    requires
        start < lines.len(),
    ensures
        r == block_scan(
            string_texts(lines@),
            indent_of(string_texts(lines@)[start as int]),
            start + 1,
            false,
            slashes,
        ),
        start < r <= lines.len(),
{
    let ghost texts = string_texts(lines@);
    let first = to_chars(lines[start].as_str());
    assert(texts[start as int] == first@);
    let indent = indent_of_exec(first.as_slice());
    let mut end_line: usize = start + 1;
    let mut found_body = false;
    let mut done = false;
    while end_line < lines.len() && !done
        invariant
            start < end_line <= lines.len(),
            texts == string_texts(lines@),
            indent == indent_of(texts[start as int]),
            !done ==> block_scan(texts, indent as int, start + 1, false, slashes) == block_scan(
                texts,
                indent as int,
                end_line as int,
                found_body,
                slashes,
            ),
            done ==> block_scan(texts, indent as int, start + 1, false, slashes) == end_line,
        decreases lines.len() - end_line + if done {
            0int
        } else {
            1int
        },
    {
        let line = to_chars(lines[end_line].as_str());
        assert(texts[end_line as int] == line@);
        if is_filler_exec(line.as_slice(), slashes) {
            end_line += 1;
        } else {
            let line_indent = indent_of_exec(line.as_slice());
            if line_indent <= indent && found_body {
                done = true;
            } else {
                if line_indent > indent {
                    found_body = true;
                }
                end_line += 1;
            }
        }
    }
    end_line
}

fn push_row(out: &mut Vec<char>, i: usize, line: &str)
    requires
        i < usize::MAX,
    ensures
        final(out)@ == old(out)@ + numbered_row(i as int, line@),
{
    crate::text::push_padded_decimal(out, i + 1, 4);
    push_str(out, " | ");
    push_str(out, line);
    out.push('\n');
}

fn push_rows(out: &mut Vec<char>, lines: &Vec<String>, from: usize, to: usize)
    requires
        from <= to <= lines.len(),
    ensures
        final(out)@ == old(out)@ + rows(string_texts(lines@), from as int, to as int),
{
    let ghost texts = string_texts(lines@);
    let mut i: usize = from;
    while i < to
        invariant
            from <= i <= to <= lines.len(),
            texts == string_texts(lines@),
            out@ == old(out)@ + rows(texts, from as int, i as int),
        decreases to - i,
    {
        assert(texts[i as int] == lines[i as int]@);
        push_row(out, i, lines[i].as_str());
        i += 1;
    }
}

fn push_elision(out: &mut Vec<char>, from: usize, to: usize)
    ensures
        final(out)@ == old(out)@ + elision_row(from as int, to as int),
{
    push_str(out, "     | ... eliding lines ");
    crate::text::push_decimal(out, from);
    push_str(out, "-");
    crate::text::push_decimal(out, to);
    push_str(out, " ...\n");
}

fn outline(path: &str, lines: &Vec<String>, python: bool) -> (r: String)
    ensures
        r@ == outline_text(path@, string_texts(lines@), python),
{
    let ghost texts = string_texts(lines@);
    let mut out: Vec<char> = Vec::new();
    push_str(&mut out, "📄 ");
    push_str(&mut out, path);
    push_str(&mut out, " (");
    crate::text::push_decimal(&mut out, lines.len());
    push_str(&mut out, " lines)\n");
    assert(texts.len() == lines.len());
    let mut current: usize = 0;
    let mut cut = false;
    while current < lines.len() && !cut
        invariant
            current <= lines.len(),
            texts == string_texts(lines@),
            !cut ==> outline_text(path@, texts, python) == outline_from(
                texts,
                current as int,
                out@,
                python,
            ),
            cut ==> outline_text(path@, texts, python) == out@,
        decreases lines.len() - current + if cut {
            0int
        } else {
            1int
        },
    {
        let line = lines[current].as_str();
        assert(texts[current as int] == line@);
        let line_chars = to_chars(line);
        let ghost before = out@;
        let next: usize;
        if python {
            if starts_after_indent_exec(line_chars.as_slice(), "def ") || starts_after_indent_exec(
                line_chars.as_slice(),
                "class ",
            ) {
                let e = scan_block(lines, current, false);
                push_row(&mut out, current, line);
                if e - current > 5 {
                    push_elision(&mut out, current + 2, e);
                } else {
                    push_rows(&mut out, lines, current + 1, e);
                }
                next = e;
            } else {
                push_row(&mut out, current, line);
                next = current + 1;
            }
        } else if FilemapTool::is_block_start(line) {
            let e = FilemapTool::find_block_end(lines, current);
            if e - current > 5 {
                push_row(&mut out, current, line);
                push_elision(&mut out, current + 2, e);
                next = e;
            } else {
                push_rows(&mut out, lines, current, e + 1);
                next = e + 1;
            }
        } else {
            push_row(&mut out, current, line);
            next = current + 1;
        }
        proof {
            let step = outline_step(texts, current as int, python);
            assert(next == step.1);
            assert(out@ == before + step.0);
        }
        if out.len() > OUTLINE_LIMIT {
            push_str(&mut out, "... (output truncated) ...\n");
            cut = true;
        } else {
            current = next;
        }
    }
    from_chars(out.as_slice())
}

/// Tool for submitting a completed task.
pub struct SubmitTool {
    name: String,
}

impl SubmitTool {
    pub fn new() -> (r: Self)
        ensures
            r.spec_name() == "submit"@,
    {
        SubmitTool { name: "submit".to_owned() }
    }

    /// The name under which the tool is registered.
    pub closed spec fn spec_name(&self) -> Seq<char> {
        self.name@
    }

    pub fn name(&self) -> (r: &str)
        ensures
            r@ == self.spec_name(),
    {
        self.name.as_str()
    }

    pub fn description(&self) -> (r: &'static str)
        ensures
            r@ == "Submit your completed task or solution"@,
    {
        "Submit your completed task or solution"
    }

    pub fn signature(&self) -> (r: &'static str)
        ensures
            r@ == "submit"@,
    {
        "submit"
    }

    /// Submitting takes no arguments: everything is accepted.
    pub fn validate_args(&self, args: &ToolArgs) -> (r: Result<(), ToolError>)
        ensures
            r is Ok,
    {
        Ok(())
    }
}

} // verus!
