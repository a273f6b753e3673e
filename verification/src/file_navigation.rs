//! File navigation: a windowed view of a file, and the tools that open a
//! file, move its window and create files.

use crate::params::{is_validation, needs_positional, require_positional};
use crate::parse::{parse_bounded, parse_usize};
use crate::state::{min_of, minus_or_zero, numbered_line, FileState, ToolState};
use crate::text::{
    decimal, from_chars, push_decimal, push_decimal_wide, push_padded_decimal, push_str,
    string_texts,
};
use crate::tool_core::{ToolArgs, ToolError};
use vstd::prelude::*;

verus! {

/// The window size of most windowed views.
pub const DEFAULT_WINDOW_SIZE: usize = 100;

/// The window size of the `open` tool, unless it is configured.
pub const OPEN_TOOL_DEFAULT_WINDOW_SIZE: usize = 1000;

/// A file seen through a window of lines.
#[derive(Debug, Clone)]
pub struct WindowedFile {
    pub path: String,
    pub content: Vec<String>,
    pub window_start: usize,
    pub window_size: usize,
}

/// Eighty dashes and a line feed.
pub open spec fn rule() -> Seq<char> {
    Seq::new(80, |i: int| '-') + seq!['\n']
}

/// The numbered lines `from..to` of `content`, each ending in a line feed.
pub open spec fn numbered_lines(content: Seq<String>, from: int, to: int) -> Seq<char>
    decreases to - from,
{
    if to <= from {
        Seq::empty()
    } else {
        numbered_lines(content, from, to - 1) + numbered_line(to as nat, content[to - 1]@)
            + seq!['\n']
    }
}

/// The display of a window of a file: a header with the path and the range
/// shown, the numbered lines of the window between two rules, and a hint
/// for each direction in which more lines lie.
pub open spec fn display_text(
    path: Seq<char>,
    content: Seq<String>,
    window_start: usize,
    window_size: usize,
) -> Seq<char> {
    let n = content.len();
    let first = min_of(window_start as int, n as int);
    let last = min_of(window_start + window_size, n as int);
    let end = if first <= last {
        last
    } else {
        first
    };
    "File: "@ + path + " ("@ + decimal(n) + " lines)\n"@ + "Lines "@ + decimal(
        (window_start + 1) as nat,
    ) + "-"@ + decimal(end as nat) + " of "@ + decimal(n) + ":\n"@ + rule() + numbered_lines(
        content,
        first,
        end,
    ) + rule() + (if window_start > 0 {
        "(Use scroll_up to see previous lines)\n"@
    } else {
        Seq::empty()
    }) + (if end < n {
        "(Use scroll_down to see more lines)\n"@
    } else {
        Seq::empty()
    })
}

impl WindowedFile {
    /// The text that `get_window_display` returns.
    pub open spec fn display(&self) -> Seq<char> {
        display_text(self.path@, self.content@, self.window_start, self.window_size)
    }

    /// A view of the lines `content` of the file at `path`, with the window
    /// at the top.
    pub fn from_content(path: String, content: Vec<String>, window_size: Option<usize>) -> (r: Self)
        ensures
            r.path == path,
            r.content == content,
            r.window_start == 0,
            r.window_size == match window_size {
                Some(n) => n,
                None => DEFAULT_WINDOW_SIZE,
            },
    {
        WindowedFile {
            path,
            content,
            window_start: 0,
            window_size: match window_size {
                Some(n) => n,
                None => DEFAULT_WINDOW_SIZE,
            },
        }
    }

    /// The window as text, with line numbers.
    pub fn get_window_display(&self) -> (r: String)
        ensures
            r@ == self.display(),
    {
        let n = self.content.len();
        let start: usize = if self.window_start < n {
            self.window_start
        } else {
            n
        };
        let end: usize = if self.window_start >= n {
            n
        } else if self.window_size >= n - self.window_start {
            n
        } else {
            self.window_start + self.window_size
        };
        let mut out: Vec<char> = Vec::new();
        push_str(&mut out, "File: ");
        push_str(&mut out, self.path.as_str());
        push_str(&mut out, " (");
        push_decimal(&mut out, n);
        push_str(&mut out, " lines)\n");
        push_str(&mut out, "Lines ");
        push_decimal_wide(&mut out, self.window_start as u128 + 1);
        push_str(&mut out, "-");
        push_decimal(&mut out, end);
        push_str(&mut out, " of ");
        push_decimal(&mut out, n);
        push_str(&mut out, ":\n");
        push_rule(&mut out);
        let ghost head = out@;
        let mut i: usize = start;
        while i < end
            invariant
                start <= i <= end <= self.content.len(),
                out@ == head + numbered_lines(self.content@, start as int, i as int),
            decreases end - i,
        {
            push_padded_decimal(&mut out, i + 1, 4);
            push_str(&mut out, " | ");
            push_str(&mut out, self.content[i].as_str());
            out.push('\n');
            i += 1;
        }
        push_rule(&mut out);
        if self.window_start > 0 {
            push_str(&mut out, "(Use scroll_up to see previous lines)\n");
        }
        if end < n {
            push_str(&mut out, "(Use scroll_down to see more lines)\n");
        }
        from_chars(out.as_slice())
    }
}

fn push_rule(out: &mut Vec<char>)
    ensures
        final(out)@ == old(out)@ + rule(),
{
    let mut k: usize = 0;
    assert(out@ == old(out)@ + Seq::new(0nat, |i: int| '-'));
    while k < 80
        invariant
            k <= 80,
            out@ == old(out)@ + Seq::new(k as nat, |i: int| '-'),
        decreases 80 - k,
    {
        out.push('-');
        k += 1;
        assert(out@ == old(out)@ + Seq::new(k as nat, |i: int| '-'));
    }
    out.push('\n');
}

/// Tool for opening files.
pub struct OpenTool {
    name: String,
    default_window_size: Option<usize>,
}

impl OpenTool {
    /// The tool with the default window size.
    pub fn new() -> (r: Self)
        ensures
            r.spec_name() == "open"@,
            r.spec_window_size() == OPEN_TOOL_DEFAULT_WINDOW_SIZE,
    {
        OpenTool { name: "open".to_owned(), default_window_size: None }
    }

    /// The tool with the window size given, or the default one.
    pub fn new_with_open_window_size(open_window_size: Option<usize>) -> (r: Self)
        ensures
            r.spec_name() == "open"@,
            r.spec_window_size() == match open_window_size {
                Some(n) => n,
                None => OPEN_TOOL_DEFAULT_WINDOW_SIZE,
            },
    {
        OpenTool { name: "open".to_owned(), default_window_size: open_window_size }
    }

    /// The tool with the window size given, or the default one.
    pub fn new_with_default(default_window_size: Option<usize>) -> (r: Self)
        ensures
            r.spec_name() == "open"@,
            r.spec_window_size() == match default_window_size {
                Some(n) => n,
                None => OPEN_TOOL_DEFAULT_WINDOW_SIZE,
            },
    {
        OpenTool { name: "open".to_owned(), default_window_size }
    }

    /// The name under which the tool is registered.
    pub closed spec fn spec_name(&self) -> Seq<char> {
        self.name@
    }

    /// The window size with which the tool opens files.
    pub closed spec fn spec_window_size(&self) -> usize {
        match self.default_window_size {
            Some(n) => n,
            None => OPEN_TOOL_DEFAULT_WINDOW_SIZE,
        }
    }

    /// The window size with which the tool opens files.
    pub fn window_size(&self) -> (r: usize)
        ensures
            r == self.spec_window_size(),
    {
        match self.default_window_size {
            Some(n) => n,
            None => OPEN_TOOL_DEFAULT_WINDOW_SIZE,
        }
    }

    pub fn name(&self) -> (r: &str)
        ensures
            r@ == self.spec_name(),
    {
        self.name.as_str()
    }

    pub fn description(&self) -> (r: &'static str)
        ensures
            r@ == "Opens the file at the given path in the editor. If line_number is provided, the window will be moved to include that line"@,
    {
        "Opens the file at the given path in the editor. If line_number is provided, the window will be moved to include that line"
    }

    pub fn signature(&self) -> (r: &'static str)
        ensures
            r@ == "open \"<path>\" [<line_number>]"@,
    {
        "open \"<path>\" [<line_number>]"
    }

    /// The arguments must name a file.
    pub fn validate_args(&self, args: &ToolArgs) -> (r: Result<(), ToolError>)
        ensures
            is_validation(r, needs_positional(*args, "Usage: open \"<file>\" [<line_number>]"@)),
    {
        require_positional(args, "Usage: open \"<file>\" [<line_number>]")
    }

    /// The line number that the arguments ask for: the second positional
    /// argument, if it is a number.
    pub fn requested_line(&self, args: &ToolArgs) -> (r: Option<usize>)
        ensures
            r == if args.args.len() >= 2 {
                match parse_bounded(args.args[1]@, usize::MAX as nat) {
                    Some(n) => Some(n as usize),
                    None => None,
                }
            } else {
                None
            },
    {
        match args.get_arg(1) {
            Some(s) => parse_usize(s.as_str()),
            None => None,
        }
    }
}

/// `g` is the file `f` with its window moved to `start`.
pub open spec fn moved_to(g: FileState, f: FileState, start: int) -> bool {
    &&& g.content == f.content
    &&& g.window_start == start
    &&& g.window_size == f.window_size
    &&& g.modified == f.modified
    &&& g.last_modified == f.last_modified
}

/// The record of a move to a line.
pub open spec fn moved_record(line_number: usize, path: Seq<char>) -> Seq<char> {
    "Moved to line "@ + decimal(line_number as nat) + " in "@ + path
}

/// How a request to move the window ended.
#[derive(Debug)]
pub enum GotoOutcome {
    /// No file is open.
    NoFileOpen,
    /// The current file has no state.
    NoFileState,
    /// Line numbers start at one.
    LineZero,
    /// The line lies beyond the end of the file.
    BeyondEnd { line_number: usize, total_lines: usize },
    /// The window was moved.
    Moved { file: String, window: Vec<String> },
}

/// Tool for navigating to specific lines.
pub struct GotoTool {
    name: String,
}

impl GotoTool {
    pub fn new() -> (r: Self)
        ensures
            r.spec_name() == "goto"@,
    {
        GotoTool { name: "goto".to_owned() }
    }

    /// The name under which the tool is registered.
    pub closed spec fn spec_name(&self) -> Seq<char> {
        self.name@
    }

    pub fn name(&self) -> (r: &str)
        ensures
            r@ == self.spec_name(),
    {
        self.name.as_str()
    }

    pub fn description(&self) -> (r: &'static str)
        ensures
            r@ == "Moves the window to show <line_number>"@,
    {
        "Moves the window to show <line_number>"
    }

    pub fn signature(&self) -> (r: &'static str)
        ensures
            r@ == "goto <line_number>"@,
    {
        "goto <line_number>"
    }

    /// What validation owes: a line number must be given, and be a
    /// number.
    pub open spec fn validation(args: ToolArgs) -> Result<(), Seq<char>> {
        if args.args.len() == 0 {
            Err("Usage: goto <line_number>"@)
        } else if parse_bounded(args.args[0]@, usize::MAX as nat) is None {
            Err("Line number must be a positive integer"@)
        } else {
            Ok(())
        }
    }

    pub fn validate_args(&self, args: &ToolArgs) -> (r: Result<(), ToolError>)
        ensures
            is_validation(r, Self::validation(*args)),
    {
        match args.get_arg(0) {
            None => Err(ToolError::InvalidArgs { message: "Usage: goto <line_number>".to_owned() }),
            Some(s) => match parse_usize(s.as_str()) {
                Some(_) => Ok(()),
                None => Err(
                    ToolError::InvalidArgs {
                        message: "Line number must be a positive integer".to_owned(),
                    },
                ),
            },
        }
    }

    /// Moves the window of the current file to show line `line_number`,
    /// and records the move in the history.
    pub fn goto(&self, state: &mut ToolState, line_number: usize) -> (r: GotoOutcome)
        ensures
            final(state).working_directory == old(state).working_directory,
            final(state).current_file == old(state).current_file,
            match old(state).current_file {
                None => r is NoFileOpen && *final(state) == *old(state),
                Some(p) => match old(state).file(p@) {
                    None => r is NoFileState && *final(state) == *old(state),
                    Some(f) => if line_number == 0 {
                        r is LineZero && *final(state) == *old(state)
                    } else if line_number > f.content.len() {
                        (r matches GotoOutcome::BeyondEnd { line_number: n, total_lines } && n
                            == line_number && total_lines == f.content.len()) && *final(state)
                            == *old(state)
                    } else {
                        &&& final(state).file(p@) matches Some(g) && moved_to(
                            g,
                            f,
                            f.start_after_goto(line_number),
                        ) && (r matches GotoOutcome::Moved { file, window } && file@ == p@
                            && string_texts(window@) == g.numbered_window())
                        &&& forall|q: Seq<char>|
                            q != p@ ==> final(state).file(q) == old(state).file(q)
                        &&& final(state).history.len() > 0
                        &&& final(state).history@.last().operation@ == moved_record(line_number, p@)
                    },
                },
            },
    {
        let current = match &state.current_file {
            None => {
                return GotoOutcome::NoFileOpen;
            },
            Some(p) => p.clone(),
        };
        match state.get_current_file_state() {
            None => {
                return GotoOutcome::NoFileState;
            },
            Some(f) => {
                if line_number == 0 {
                    return GotoOutcome::LineZero;
                }
                if line_number > f.total_lines() {
                    return GotoOutcome::BeyondEnd { line_number, total_lines: f.total_lines() };
                }
            },
        }
        let mut window: Vec<String> = Vec::new();
        match state.get_current_file_state_mut() {
            Some(f) => {
                f.goto_line(line_number);
                window = f.get_window_with_line_numbers();
            },
            None => {},
        }
        let mut record: Vec<char> = Vec::new();
        push_str(&mut record, "Moved to line ");
        push_decimal(&mut record, line_number);
        push_str(&mut record, " in ");
        push_str(&mut record, current.as_str());
        state.push_history(from_chars(record.as_slice()));
        GotoOutcome::Moved { file: current, window }
    }
}


/// How a request to scroll ended.
#[derive(Debug)]
pub enum ScrollOutcome {
    /// No file is open.
    NoFileOpen,
    /// The current file has no state.
    NoFileState,
    /// The window is at the top of the file already.
    AtStart,
    /// The window reaches the end of the file already.
    AtEnd,
    /// The window was moved from `old_start` to `new_start` (0-based).
    Scrolled { old_start: usize, new_start: usize, file: String, window: Vec<String> },
}

/// The record of a scroll.
pub open spec fn scrolled_record(up: bool, path: Seq<char>) -> Seq<char> {
    (if up {
        "Scrolled up in "@
    } else {
        "Scrolled down in "@
    }) + path
}

/// Tool for scrolling within files.
pub struct ScrollTool {
    name: String,
    up: bool,
}

impl ScrollTool {
    /// A tool called `name` that scrolls up, or down.
    pub fn new(name: &str, up: bool) -> (r: Self)
        ensures
            r.spec_name() == name@,
            r.scrolls_up() == up,
    {
        ScrollTool { name: name.to_owned(), up }
    }

    /// The name under which the tool is registered.
    pub closed spec fn spec_name(&self) -> Seq<char> {
        self.name@
    }

    /// Whether the tool scrolls up.
    pub closed spec fn scrolls_up(&self) -> bool {
        self.up
    }

    pub fn name(&self) -> (r: &str)
        ensures
            r@ == self.spec_name(),
    {
        self.name.as_str()
    }

    pub fn description(&self) -> (r: &'static str)
        ensures
            r@ == if self.scrolls_up() {
                "Moves the window up by the window size"@
            } else {
                "Moves the window down by the window size"@
            },
    {
        if self.up {
            "Moves the window up by the window size"
        } else {
            "Moves the window down by the window size"
        }
    }

    pub fn signature(&self) -> (r: &str)
        ensures
            r@ == self.spec_name(),
    {
        self.name.as_str()
    }

    /// Scroll tools take no arguments: everything is accepted.
    pub fn validate_args(&self, args: &ToolArgs) -> (r: Result<(), ToolError>)
        ensures
            r is Ok,
    {
        Ok(())
    }

    /// Scrolls the window of the current file by its size, and records the
    /// scroll in the history.
    pub fn scroll(&self, state: &mut ToolState) -> (r: ScrollOutcome)
        ensures
            final(state).working_directory == old(state).working_directory,
            final(state).current_file == old(state).current_file,
            match old(state).current_file {
                None => r is NoFileOpen && *final(state) == *old(state),
                Some(p) => match old(state).file(p@) {
                    None => r is NoFileState && *final(state) == *old(state),
                    Some(f) => if self.scrolls_up() && f.window_start == 0 {
                        r is AtStart && *final(state) == *old(state)
                    } else if !self.scrolls_up() && f.window_start + f.window_size
                        >= f.content.len() {
                        r is AtEnd && *final(state) == *old(state)
                    } else {
                        let start = if self.scrolls_up() {
                            minus_or_zero(f.window_start as int, f.window_size as int)
                        } else {
                            min_of(f.window_start + f.window_size, f.max_start())
                        };
                        &&& final(state).file(p@) matches Some(g) && moved_to(g, f, start) && (r
                            matches ScrollOutcome::Scrolled { old_start, new_start, file, window }
                            && old_start == f.window_start && new_start == start && file@ == p@
                            && string_texts(window@) == g.numbered_window())
                        &&& forall|q: Seq<char>|
                            q != p@ ==> final(state).file(q) == old(state).file(q)
                        &&& final(state).history.len() > 0
                        &&& final(state).history@.last().operation@ == scrolled_record(
                            self.scrolls_up(),
                            p@,
                        )
                    },
                },
            },
    {
        let current = match &state.current_file {
            None => {
                return ScrollOutcome::NoFileOpen;
            },
            Some(p) => p.clone(),
        };
        let old_start: usize;
        match state.get_current_file_state() {
            None => {
                return ScrollOutcome::NoFileState;
            },
            Some(f) => {
                if self.up {
                    if f.is_at_start() {
                        return ScrollOutcome::AtStart;
                    }
                } else {
                    if f.is_at_end() {
                        return ScrollOutcome::AtEnd;
                    }
                }
                old_start = f.window_start;
            },
        }
        let mut window: Vec<String> = Vec::new();
        let mut new_start: usize = 0;
        match state.get_current_file_state_mut() {
            Some(f) => {
                if self.up {
                    f.scroll_up();
                } else {
                    f.scroll_down();
                }
                new_start = f.window_start;
                window = f.get_window_with_line_numbers();
            },
            None => {},
        }
        let mut record: Vec<char> = Vec::new();
        if self.up {
            push_str(&mut record, "Scrolled up in ");
        } else {
            push_str(&mut record, "Scrolled down in ");
        }
        push_str(&mut record, current.as_str());
        state.push_history(from_chars(record.as_slice()));
        ScrollOutcome::Scrolled { old_start, new_start, file: current, window }
    }
}

/// Tool for creating new files.
pub struct CreateTool {
    name: String,
}

impl CreateTool {
    pub fn new() -> (r: Self)
        ensures
            r.spec_name() == "create"@,
    {
        CreateTool { name: "create".to_owned() }
    }

    /// The name under which the tool is registered.
    pub closed spec fn spec_name(&self) -> Seq<char> {
        self.name@
    }

    pub fn name(&self) -> (r: &str)
        ensures
            r@ == self.spec_name(),
    {
        self.name.as_str()
    }

    pub fn description(&self) -> (r: &'static str)
        ensures
            r@ == "Creates and opens a new file with the given name"@,
    {
        "Creates and opens a new file with the given name"
    }

    pub fn signature(&self) -> (r: &'static str)
        ensures
            r@ == "create <filename>"@,
    {
        "create <filename>"
    }

    /// The arguments must name a file.
    pub fn validate_args(&self, args: &ToolArgs) -> (r: Result<(), ToolError>)
        ensures
            is_validation(r, needs_positional(*args, "Usage: create <filename>"@)),
    {
        require_positional(args, "Usage: create <filename>")
    }

    /// Opens the file `filename`, which was just created empty, records
    /// that in the history, and returns the display of its window.
    pub fn create(&self, state: &mut ToolState, filename: &str) -> (r: String)
        ensures
            (final(state).file(filename@) matches Some(f) && f.content.len() == 0 && f.window_start
                == 0 && f.window_size == DEFAULT_WINDOW_SIZE && !f.modified),
            forall|q: Seq<char>| q != filename@ ==> final(state).file(q) == old(state).file(q),
            (final(state).current_file matches Some(c) && c@ == filename@),
            final(state).working_directory == old(state).working_directory,
            final(state).history.len() > 0,
            final(state).history@.last().operation@ == "Created file: "@ + filename@,
            r@ == display_text(filename@, Seq::empty(), 0, DEFAULT_WINDOW_SIZE),
    {
        let _ = state.open_file(filename.to_owned(), Vec::new(), DEFAULT_WINDOW_SIZE);
        let mut record: Vec<char> = Vec::new();
        push_str(&mut record, "Created file: ");
        push_str(&mut record, filename);
        state.push_history(from_chars(record.as_slice()));
        let windowed = WindowedFile::from_content(filename.to_owned(), Vec::new(), None);
        windowed.get_window_display()
    }
}


/// How a request to open a file ended.
#[derive(Debug)]
pub enum OpenOutcome {
    /// The file is the current file already; its window is shown as it is.
    AlreadyOpen { total_lines: usize, window: Vec<String> },
    /// The file is the current file already; its window was moved.
    AlreadyOpenMoved { line_number: usize, total_lines: usize, window: Vec<String> },
    /// The file is the current file already, and the line asked for lies
    /// beyond its end.
    AlreadyOpenBeyondEnd { line_number: usize, total_lines: usize, window: Vec<String> },
    /// The file was opened.
    Opened { total_lines: usize, window: Vec<String> },
    /// The file was opened, and the line asked for lies beyond its end.
    OpenedBeyondEnd { line_number: usize, total_lines: usize, window: Vec<String> },
}

/// Whether `path` is the current file of the state.
pub open spec fn is_current(current: Option<String>, path: Seq<char>) -> bool {
    match current {
        Some(c) => c@ == path,
        None => false,
    }
}

impl OpenTool {
    /// Handles a request for the file that is current already, without
    /// reading it again: shows its window, or moves it to the line asked
    /// for and records the move. Returns `None` where the file has to be
    /// read: when it is not the current file, or has no state and no line
    /// is asked for.
    pub fn reopen(&self, state: &mut ToolState, path: &str, line: Option<usize>) -> (r: Option<
        OpenOutcome,
    >)
        ensures
            final(state).working_directory == old(state).working_directory,
            final(state).current_file == old(state).current_file,
            forall|q: Seq<char>| q != path@ ==> final(state).file(q) == old(state).file(q),
            if !is_current(old(state).current_file, path@) {
                r is None && *final(state) == *old(state)
            } else {
                match (line, old(state).file(path@)) {
                    (None, None) => r is None && *final(state) == *old(state),
                    (None, Some(f)) => (r matches Some(
                        OpenOutcome::AlreadyOpen { total_lines, window },
                    ) && total_lines == f.content.len() && string_texts(window@)
                        == f.numbered_window()) && *final(state) == *old(state),
                    (Some(n), None) => (r matches Some(
                        OpenOutcome::AlreadyOpenMoved { line_number, total_lines, window },
                    ) && line_number == n && total_lines == 0 && window.len() == 0) && final(state).file(path@) is None && final(state).history.len() > 0 && final(state).history@.last().operation@ == moved_record(n, path@),
                    (Some(n), Some(f)) => (final(state).file(path@) matches Some(g) && moved_to(
                        g,
                        f,
                        f.start_after_goto(n),
                    ) && if n > f.content.len() {
                        (r matches Some(
                            OpenOutcome::AlreadyOpenBeyondEnd { line_number, total_lines, window },
                        ) && line_number == n && total_lines == f.content.len() && string_texts(window@) == g.numbered_window()) && final(state).history == old(state).history
                    } else {
                        (r matches Some(
                            OpenOutcome::AlreadyOpenMoved { line_number, total_lines, window },
                        ) && line_number == n && total_lines == f.content.len() && string_texts(window@) == g.numbered_window()) && final(state).history.len() > 0 && final(state).history@.last().operation@ == moved_record(n, path@)
                    }),
                }
            },
    {
        let same = match &state.current_file {
            Some(c) => crate::tool_core::str_eq(c.as_str(), path),
            None => false,
        };
        if !same {
            return None;
        }
        match line {
            None => match state.get_current_file_state() {
                Some(f) => Some(
                    OpenOutcome::AlreadyOpen {
                        total_lines: f.total_lines(),
                        window: f.get_window_with_line_numbers(),
                    },
                ),
                None => None,
            },
            Some(n) => {
                let mut moved: Option<(usize, Vec<String>)> = None;
                match state.get_current_file_state_mut() {
                    Some(f) => {
                        f.goto_line(n);
                        moved = Some((f.total_lines(), f.get_window_with_line_numbers()));
                    },
                    None => {},
                }
                match moved {
                    Some((total_lines, window)) => {
                        if n > total_lines {
                            return Some(
                                OpenOutcome::AlreadyOpenBeyondEnd {
                                    line_number: n,
                                    total_lines,
                                    window,
                                },
                            );
                        }
                        self.record_move(state, n, path);
                        Some(OpenOutcome::AlreadyOpenMoved { line_number: n, total_lines, window })
                    },
                    None => {
                        self.record_move(state, n, path);
                        Some(
                            OpenOutcome::AlreadyOpenMoved {
                                line_number: n,
                                total_lines: 0,
                                window: Vec::new(),
                            },
                        )
                    },
                }
            },
        }
    }

    fn record_move(&self, state: &mut ToolState, line_number: usize, path: &str)
        ensures
            final(state).open_files == old(state).open_files,
            final(state).current_file == old(state).current_file,
            final(state).working_directory == old(state).working_directory,
            final(state).history.len() > 0,
            final(state).history@.last().operation@ == moved_record(line_number, path@),
    {
        let mut record: Vec<char> = Vec::new();
        push_str(&mut record, "Moved to line ");
        push_decimal(&mut record, line_number);
        push_str(&mut record, " in ");
        push_str(&mut record, path);
        state.push_history(from_chars(record.as_slice()));
    }

    /// Opens the file at `path`, whose lines are `lines`, with the tool's
    /// window size, moves the window to the line asked for, and records the
    /// opening. A line beyond the end of the file is reported and not
    /// recorded.
    pub fn open(&self, state: &mut ToolState, path: &str, lines: Vec<String>, line: Option<usize>) -> (r:
        OpenOutcome)
        ensures
            final(state).working_directory == old(state).working_directory,
            (final(state).current_file matches Some(c) && c@ == path@),
            forall|q: Seq<char>| q != path@ ==> final(state).file(q) == old(state).file(q),
            ({
                let start: int = match line {
                    Some(n) => if 1 <= n <= lines.len() {
                        min_of(
                            minus_or_zero(n - 1, self.spec_window_size() as int / 2),
                            minus_or_zero(lines.len() as int, self.spec_window_size() as int),
                        )
                    } else {
                        0
                    },
                    None => 0,
                };
                &&& final(state).file(path@) matches Some(g) && g.content == lines && g.window_start
                    == start && g.window_size == self.spec_window_size() && !g.modified && (match line {
                    Some(n) => if n > lines.len() {
                        r matches OpenOutcome::OpenedBeyondEnd { line_number, total_lines, window }
                            && line_number == n && total_lines == lines.len() && string_texts(window@) == g.numbered_window()
                    } else {
                        r matches OpenOutcome::Opened { total_lines, window } && total_lines
                            == lines.len() && string_texts(window@) == g.numbered_window()
                    },
                    None => r matches OpenOutcome::Opened { total_lines, window } && total_lines
                        == lines.len() && string_texts(window@) == g.numbered_window(),
                })
                &&& if line matches Some(n) && n > lines.len() {
                    final(state).history == old(state).history
                } else {
                    final(state).history.len() > 0 && final(state).history@.last().operation@
                        == "Opened file: "@ + path@
                }
            }),
    {
        let size = self.window_size();
        let _ = state.open_file(path.to_owned(), lines, size);
        let mut total_lines: usize = 0;
        let mut window: Vec<String> = Vec::new();
        match state.get_current_file_state_mut() {
            Some(f) => {
                match line {
                    Some(n) => {
                        f.goto_line(n);
                    },
                    None => {},
                }
                total_lines = f.total_lines();
                window = f.get_window_with_line_numbers();
            },
            None => {},
        }
        match line {
            Some(n) => {
                if n > total_lines {
                    return OpenOutcome::OpenedBeyondEnd { line_number: n, total_lines, window };
                }
            },
            None => {},
        }
        let mut record: Vec<char> = Vec::new();
        push_str(&mut record, "Opened file: ");
        push_str(&mut record, path);
        state.push_history(from_chars(record.as_slice()));
        OpenOutcome::Opened { total_lines, window }
    }
}

} // verus!
