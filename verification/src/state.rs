//! State of a session: the files that are open, the window shown of each,
//! and a bounded history of what was done.

use crate::assoc::{
    assoc_contains, assoc_find, assoc_get, assoc_insert, assoc_remove, lemma_update_value,
};
use crate::text::{
    decimal, from_chars, padded_decimal, push_decimal, push_decimal_wide, push_padded_decimal,
    push_str,
};
use crate::tool_core::{ToolArgs, ToolError};
use vstd::prelude::*;

verus! {

/// A point in time, as the system clock gives it.
#[verifier::external_type_specification]
#[verifier::external_body]
pub struct ExSystemTime(std::time::SystemTime);

/// `SystemTime::now` reads the system clock. Nothing is known of the
/// reading.
pub assume_specification[ std::time::SystemTime::now ]() -> (t: std::time::SystemTime)
;

/// The most snapshots kept in the history.
pub const MAX_HISTORY: usize = 100;

/// State of an individual file.
#[derive(Debug)]
pub struct FileState {
    /// File content as lines.
    pub content: Vec<String>,
    /// Where the window starts (0-based line number).
    pub window_start: usize,
    /// How many lines the window shows.
    pub window_size: usize,
    /// Whether the file was modified.
    pub modified: bool,
    /// When the file was last modified.
    pub last_modified: Option<std::time::SystemTime>,
}

/// The smaller of two numbers.
pub open spec fn min_of(a: int, b: int) -> int {
    if a <= b {
        a
    } else {
        b
    }
}

/// `a - b`, or zero where that would be negative.
pub open spec fn minus_or_zero(a: int, b: int) -> int {
    if a >= b {
        a - b
    } else {
        0
    }
}

/// A numbered line as the window shows it: the number right-aligned in four
/// columns, a bar, and the line.
pub open spec fn numbered_line(number: nat, line: Seq<char>) -> Seq<char> {
    padded_decimal(number, 4) + " | "@ + line
}

impl FileState {
    /// Where the window starts, never beyond the last line.
    pub open spec fn first_shown(&self) -> int {
        min_of(self.window_start as int, self.content.len() as int)
    }

    /// Where the window ends: after `window_size` lines, or at the end of
    /// the file.
    pub open spec fn window_end(&self) -> int {
        min_of(self.window_start + self.window_size, self.content.len() as int)
    }

    /// The largest start at which a full window still fits.
    pub open spec fn max_start(&self) -> int {
        minus_or_zero(self.content.len() as int, self.window_size as int)
    }

    /// The state of a file that was just opened: the window at the top.
    pub fn new(content: Vec<String>, window_size: usize) -> (r: Self)
        ensures
            r.content == content,
            r.window_start == 0,
            r.window_size == window_size,
            !r.modified,
            r.last_modified is None,
    {
        FileState { content, window_start: 0, window_size, modified: false, last_modified: None }
    }

    fn end_index(&self) -> (r: usize)
        ensures
            r == if self.first_shown() <= self.window_end() {
                self.window_end()
            } else {
                self.first_shown()
            },
            self.window_start <= self.content.len() ==> r == self.window_end(),
    {
        let n = self.content.len();
        if self.window_start >= n {
            n
        } else if self.window_size >= n - self.window_start {
            n
        } else {
            self.window_start + self.window_size
        }
    }

    /// The lines in the window.
    pub fn get_window(&self) -> (r: Vec<&String>)
        ensures
            r.len() == minus_or_zero(self.window_end(), self.first_shown()),
            forall|i: int| 0 <= i < r.len() ==> *(#[trigger] r[i]) == self.content[self.first_shown() + i],
    {
        let n = self.content.len();
        let start: usize = if self.window_start < n {
            self.window_start
        } else {
            n
        };
        let end = self.end_index();
        let mut r: Vec<&String> = Vec::new();
        let mut i: usize = start;
        while i < end
            invariant
                start <= i <= end <= self.content.len(),
                r.len() == i - start,
                forall|j: int| 0 <= j < r.len() ==> *(#[trigger] r[j]) == self.content[start + j],
            decreases end - i,
        {
            r.push(&self.content[i]);
            i += 1;
        }
        r
    }

    /// The lines in the window, each with its 1-based line number.
    pub open spec fn numbered_window(&self) -> Seq<Seq<char>> {
        Seq::new(
            minus_or_zero(self.window_end(), self.first_shown()) as nat,
            |i: int|
                numbered_line(
                    (self.first_shown() + i + 1) as nat,
                    self.content[self.first_shown() + i]@,
                ),
        )
    }

    /// Where the window starts after `goto_line`.
    pub open spec fn start_after_goto(&self, line_number: usize) -> int {
        if 1 <= line_number <= self.content.len() {
            min_of(minus_or_zero(line_number - 1, self.window_size as int / 2), self.max_start())
        } else {
            self.window_start as int
        }
    }

    /// The lines in the window, each with its 1-based line number.
    pub fn get_window_with_line_numbers(&self) -> (r: Vec<String>)
        ensures
            crate::text::string_texts(r@) == self.numbered_window(),
    {
        let n = self.content.len();
        let start: usize = if self.window_start < n {
            self.window_start
        } else {
            n
        };
        let end = self.end_index();
        let mut r: Vec<String> = Vec::new();
        let mut i: usize = start;
        while i < end
            invariant
                start <= i <= end <= self.content.len(),
                r.len() == i - start,
                forall|j: int|
                    0 <= j < r.len() ==> (#[trigger] r[j])@ == numbered_line(
                        (start + j + 1) as nat,
                        self.content[start + j]@,
                    ),
            decreases end - i,
        {
            let mut line: Vec<char> = Vec::new();
            push_padded_decimal(&mut line, i + 1, 4);
            push_str(&mut line, " | ");
            push_str(&mut line, self.content[i].as_str());
            r.push(from_chars(line.as_slice()));
            i += 1;
        }
        assert(crate::text::string_texts(r@) == self.numbered_window());
        r
    }

    /// Moves the window so that it shows line `line_number` (1-based),
    /// centred where the file allows. Line zero and lines beyond the end
    /// leave the window where it is.
    pub fn goto_line(&mut self, line_number: usize)
        ensures
            final(self).content == old(self).content,
            final(self).window_size == old(self).window_size,
            final(self).modified == old(self).modified,
            final(self).last_modified == old(self).last_modified,
            final(self).window_start == old(self).start_after_goto(line_number),
    {
        if line_number == 0 {
            return ;
        }
        let target_line: usize = line_number - 1;
        if target_line < self.content.len() {
            let half_window: usize = self.window_size / 2;
            let mut start: usize = if target_line >= half_window {
                target_line - half_window
            } else {
                0
            };
            let max_start: usize = if self.content.len() >= self.window_size {
                self.content.len() - self.window_size
            } else {
                0
            };
            if start > max_start {
                start = max_start;
            }
            self.window_start = start;
        }
    }

    /// Moves the window up by its size, not beyond the top.
    pub fn scroll_up(&mut self)
        ensures
            final(self).content == old(self).content,
            final(self).window_size == old(self).window_size,
            final(self).modified == old(self).modified,
            final(self).last_modified == old(self).last_modified,
            final(self).window_start == minus_or_zero(
                old(self).window_start as int,
                old(self).window_size as int,
            ),
    {
        self.window_start = if self.window_start >= self.window_size {
            self.window_start - self.window_size
        } else {
            0
        };
    }

    /// Moves the window down by its size, not beyond the last full window.
    pub fn scroll_down(&mut self)
        ensures
            final(self).content == old(self).content,
            final(self).window_size == old(self).window_size,
            final(self).modified == old(self).modified,
            final(self).last_modified == old(self).last_modified,
            final(self).window_start == min_of(
                old(self).window_start + old(self).window_size,
                old(self).max_start(),
            ),
    {
        let max_start: usize = if self.content.len() >= self.window_size {
            self.content.len() - self.window_size
        } else {
            0
        };
        self.window_start = if self.window_start >= max_start {
            max_start
        } else if self.window_size >= max_start - self.window_start {
            max_start
        } else {
            self.window_start + self.window_size
        };
    }

    /// The number of lines of the file.
    pub fn total_lines(&self) -> (r: usize)
        ensures
            r == self.content.len(),
    {
        self.content.len()
    }

    /// Whether the window is at the top of the file.
    pub fn is_at_start(&self) -> (r: bool)
        ensures
            r == (self.window_start == 0),
    {
        self.window_start == 0
    }

    /// Whether the window reaches the end of the file.
    pub fn is_at_end(&self) -> (r: bool)
        ensures
            r == (self.window_start + self.window_size >= self.content.len()),
    {
        let n = self.content.len();
        if self.window_start >= n {
            true
        } else {
            self.window_size >= n - self.window_start
        }
    }

    /// A copy of this state.
    pub fn duplicate(&self) -> (r: Self)
        ensures
            r.content@ == self.content@,
            r.window_start == self.window_start,
            r.window_size == self.window_size,
            r.modified == self.modified,
            r.last_modified == self.last_modified,
    {
        let mut content: Vec<String> = Vec::new();
        let mut i: usize = 0;
        while i < self.content.len()
            invariant
                i <= self.content.len(),
                content@ == self.content@.take(i as int),
            decreases self.content.len() - i,
        {
            content.push(self.content[i].clone());
            i += 1;
        }
        assert(self.content@.take(self.content.len() as int) == self.content@);
        FileState {
            content,
            window_start: self.window_start,
            window_size: self.window_size,
            modified: self.modified,
            last_modified: self.last_modified,
        }
    }
}


/// Snapshot of the tool state, kept in the history.
#[derive(Debug)]
pub struct StateSnapshot {
    pub timestamp: std::time::SystemTime,
    pub current_file: Option<String>,
    pub operation: String,
    pub file_states: Vec<(String, FileState)>,
}

/// The state of the tool system.
#[derive(Debug)]
pub struct ToolState {
    /// The open files, each under its path.
    pub open_files: Vec<(String, FileState)>,
    /// The path of the file that is active.
    pub current_file: Option<String>,
    /// What was done so far, oldest first.
    pub history: Vec<StateSnapshot>,
    /// The working directory.
    pub working_directory: String,
}

/// Two lists of open files hold the same files under the same paths, in the
/// same order.
pub open spec fn same_files(a: Seq<(String, FileState)>, b: Seq<(String, FileState)>) -> bool {
    &&& a.len() == b.len()
    &&& forall|i: int|
        0 <= i < a.len() ==> (#[trigger] a[i]).0@ == b[i].0@ && a[i].1.content@ == b[i].1.content@
            && a[i].1.window_start == b[i].1.window_start && a[i].1.window_size
            == b[i].1.window_size && a[i].1.modified == b[i].1.modified && a[i].1.last_modified
            == b[i].1.last_modified
}

/// The line of the summary that describes the window of the current file.
pub open spec fn window_line(f: FileState) -> Seq<char> {
    "Lines: "@ + decimal(f.content.len() as nat) + " | Window: "@ + decimal(
        (f.window_start + 1) as nat,
    ) + "-"@ + decimal(f.window_end() as nat) + " (size: "@ + decimal(f.window_size as nat)
        + ")\n"@
}

/// The line of the summary that describes one open file.
pub open spec fn open_file_line(path: Seq<char>, f: FileState) -> Seq<char> {
    "  "@ + path + " - "@ + decimal(f.content.len() as nat) + " lines"@ + (if f.modified {
        " (modified)"@
    } else {
        ""@
    }) + "\n"@
}

/// The lines of the summary that describe the open files, in order.
pub open spec fn open_file_lines(files: Seq<(String, FileState)>) -> Seq<char>
    decreases files.len(),
{
    if files.len() == 0 {
        Seq::empty()
    } else {
        open_file_lines(files.drop_last()) + open_file_line(files.last().0@, files.last().1)
    }
}

impl ToolState {
    /// The state of the file stored under `path`, if it is open.
    pub open spec fn file(&self, path: Seq<char>) -> Option<FileState> {
        assoc_get(self.open_files@, path)
    }

    /// The text that `get_summary` returns.
    pub open spec fn summary(&self) -> Seq<char> {
        "Working Directory: "@ + self.working_directory@ + "\n"@ + (match self.current_file {
            Some(p) => "Current File: "@ + p@ + "\n"@ + (match self.file(p@) {
                Some(f) => window_line(f),
                None => Seq::empty(),
            }),
            None => "No file currently open\n"@,
        }) + (if self.open_files.len() > 0 {
            "\nOpen Files:\n"@ + open_file_lines(self.open_files@)
        } else {
            Seq::empty()
        })
    }

    /// A state with no open file, working in the directory `.`.
    pub fn new() -> (r: Self)
        ensures
            r.open_files.len() == 0,
            r.current_file is None,
            r.history.len() == 0,
            r.working_directory@ == "."@,
    {
        ToolState {
            open_files: Vec::new(),
            current_file: None,
            history: Vec::new(),
            working_directory: ".".to_owned(),
        }
    }

    /// A state with no open file, working in `working_directory`.
    pub fn with_working_directory(working_directory: String) -> (r: Self)
        ensures
            r.open_files.len() == 0,
            r.current_file is None,
            r.history.len() == 0,
            r.working_directory == working_directory,
    {
        ToolState {
            open_files: Vec::new(),
            current_file: None,
            history: Vec::new(),
            working_directory,
        }
    }

    /// Opens a file with the window at its top, in place of any file open
    /// under the same path, and makes it the current file.
    pub fn open_file(&mut self, path: String, content: Vec<String>, window_size: usize) -> (r:
        Result<(), ToolError>)
        ensures
            r is Ok,
            (final(self).file(path@) matches Some(f) && f.content == content && f.window_start == 0
                && f.window_size == window_size && !f.modified && f.last_modified is None),
            forall|p: Seq<char>| p != path@ ==> final(self).file(p) == old(self).file(p),
            (final(self).current_file matches Some(c) && c@ == path@),
            final(self).history == old(self).history,
            final(self).working_directory == old(self).working_directory,
    {
        let file_state = FileState::new(content, window_size);
        let current = path.clone();
        assoc_insert(&mut self.open_files, path, file_state);
        self.current_file = Some(current);
        Ok(())
    }

    /// Whether a file is open under `path`.
    pub fn is_open(&self, path: &str) -> (r: bool)
        ensures
            r == self.file(path@) is Some,
    {
        assoc_contains(&self.open_files, path)
    }

    /// The state of the current file.
    pub fn get_current_file_state(&self) -> (r: Option<&FileState>)
        ensures
            match r {
                Some(f) => self.current_file matches Some(p) && self.file(p@) == Some(*f),
                None => self.current_file matches Some(p) ==> self.file(p@) is None,
            },
    {
        match &self.current_file {
            None => None,
            Some(path) => match assoc_find(&self.open_files, path.as_str()) {
                Some(i) => Some(&self.open_files[i].1),
                None => None,
            },
        }
    }

    /// The state of the current file, for changing it.
    pub fn get_current_file_state_mut(&mut self) -> (r: Option<&mut FileState>)
        ensures
            match r {
                Some(f) => old(self).current_file matches Some(p) && old(self).file(p@) == Some(*f)
                    && final(self).file(p@) == Some(*final(f)) && (forall|q: Seq<char>|
                    q != p@ ==> final(self).file(q) == old(self).file(q)),
                None => (old(self).current_file matches Some(p) ==> old(self).file(p@) is None)
                    && final(self).open_files == old(self).open_files,
            },
            final(self).current_file == old(self).current_file,
            final(self).history == old(self).history,
            final(self).working_directory == old(self).working_directory,
    {
        let found = match &self.current_file {
            None => None,
            Some(path) => assoc_find(&self.open_files, path.as_str()),
        };
        match found {
            Some(i) => {
                let ghost pairs = self.open_files@;
                let r = &mut self.open_files[i].1;
                proof {
                    assert forall|q: Seq<char>|
                        assoc_get(pairs.update(i as int, (pairs[i as int].0, *final(r))), q) == if q
                            == pairs[i as int].0@ {
                            Some(*final(r))
                        } else {
                            assoc_get(pairs, q)
                        } by {
                        lemma_update_value(pairs, i as int, *final(r), q);
                    }
                }
                Some(r)
            },
            None => None,
        }
    }

    /// Makes the file open under `path` the current file.
    pub fn switch_to_file(&mut self, path: &String) -> (r: Result<(), ToolError>)
        ensures
            final(self).open_files == old(self).open_files,
            final(self).history == old(self).history,
            final(self).working_directory == old(self).working_directory,
            match r {
                Ok(_) => old(self).file(path@) is Some && final(self).current_file == Some(*path),
                Err(e) => old(self).file(path@) is None && final(self).current_file == old(
                    self,
                ).current_file && (e matches ToolError::FileNotFound { path: p } && p == *path),
            },
    {
        if assoc_contains(&self.open_files, path.as_str()) {
            self.current_file = Some(path.clone());
            Ok(())
        } else {
            Err(ToolError::FileNotFound { path: path.clone() })
        }
    }

    /// Closes the file open under `path`. If it was the current file, the
    /// first file that is still open becomes the current one.
    pub fn close_file(&mut self, path: &String)
        ensures
            final(self).file(path@) is None,
            forall|p: Seq<char>| p != path@ ==> final(self).file(p) == old(self).file(p),
            final(self).history == old(self).history,
            final(self).working_directory == old(self).working_directory,
            match old(self).current_file {
                Some(c) => if c@ == path@ {
                    if final(self).open_files.len() == 0 {
                        final(self).current_file is None
                    } else {
                        final(self).current_file == Some(final(self).open_files[0].0)
                    }
                } else {
                    final(self).current_file == old(self).current_file
                },
                None => final(self).current_file is None,
            },
    {
        assoc_remove(&mut self.open_files, path.as_str());
        let was_current = match &self.current_file {
            Some(c) => crate::tool_core::str_eq(c.as_str(), path.as_str()),
            None => false,
        };
        if was_current {
            if self.open_files.len() == 0 {
                self.current_file = None;
            } else {
                self.current_file = Some(self.open_files[0].0.clone());
            }
        }
    }

    /// A snapshot of the state, stamped with the time of the system clock.
    pub fn create_snapshot(&self, operation: String) -> (r: StateSnapshot)
        ensures
            r.operation == operation,
            r.current_file == self.current_file,
            same_files(r.file_states@, self.open_files@),
    {
        let mut file_states: Vec<(String, FileState)> = Vec::new();
        let mut i: usize = 0;
        while i < self.open_files.len()
            invariant
                i <= self.open_files.len(),
                same_files(file_states@, self.open_files@.take(i as int)),
            decreases self.open_files.len() - i,
        {
            file_states.push((self.open_files[i].0.clone(), self.open_files[i].1.duplicate()));
            i += 1;
        }
        assert(self.open_files@.take(self.open_files.len() as int) == self.open_files@);
        let current_file = match &self.current_file {
            Some(p) => Some(p.clone()),
            None => None,
        };
        StateSnapshot {
            timestamp: std::time::SystemTime::now(),
            current_file,
            operation,
            file_states,
        }
    }

    /// Records `operation` in the history, with a snapshot of the state as
    /// it is. The history keeps the latest `MAX_HISTORY` snapshots.
    pub fn push_history(&mut self, operation: String)
        ensures
            final(self).open_files == old(self).open_files,
            final(self).current_file == old(self).current_file,
            final(self).working_directory == old(self).working_directory,
            final(self).history.len() == if old(self).history.len() + 1 > MAX_HISTORY {
                old(self).history.len() as int
            } else {
                old(self).history.len() + 1
            },
            final(self).history.len() > 0,
            final(self).history@.last().operation == operation,
            final(self).history@.last().current_file == old(self).current_file,
            same_files(final(self).history@.last().file_states@, old(self).open_files@),
            old(self).history.len() + 1 > MAX_HISTORY ==> final(self).history@.drop_last()
                == old(self).history@.skip(1),
            old(self).history.len() + 1 <= MAX_HISTORY ==> final(self).history@.drop_last()
                == old(self).history@,
    {
        let snapshot = self.create_snapshot(operation);
        self.history.push(snapshot);
        if self.history.len() > MAX_HISTORY {
            self.history.remove(0);
        }
    }

    /// A summary of the state for display.
    pub fn get_summary(&self) -> (r: String)
        ensures
            r@ == self.summary(),
    {
        let mut out: Vec<char> = Vec::new();
        push_str(&mut out, "Working Directory: ");
        push_str(&mut out, self.working_directory.as_str());
        push_str(&mut out, "\n");
        match &self.current_file {
            Some(current) => {
                push_str(&mut out, "Current File: ");
                push_str(&mut out, current.as_str());
                push_str(&mut out, "\n");
                match assoc_find(&self.open_files, current.as_str()) {
                    Some(i) => {
                        let f = &self.open_files[i].1;
                        let ghost before = out@;
                        push_str(&mut out, "Lines: ");
                        push_decimal(&mut out, f.total_lines());
                        push_str(&mut out, " | Window: ");
                        push_decimal_wide(&mut out, f.window_start as u128 + 1);
                        push_str(&mut out, "-");
                        let end: usize = if f.window_start >= f.content.len() {
                            f.content.len()
                        } else if f.window_size >= f.content.len() - f.window_start {
                            f.content.len()
                        } else {
                            f.window_start + f.window_size
                        };
                        push_decimal(&mut out, end);
                        push_str(&mut out, " (size: ");
                        push_decimal(&mut out, f.window_size);
                        push_str(&mut out, ")\n");
                        assert(out@ == before + window_line(*f));
                    },
                    None => {},
                }
            },
            None => {
                push_str(&mut out, "No file currently open\n");
            },
        }
        if self.open_files.len() > 0 {
            push_str(&mut out, "\nOpen Files:\n");
            let ghost base = out@;
            let mut i: usize = 0;
            assert(self.open_files@.take(0) == Seq::<(String, FileState)>::empty());
            while i < self.open_files.len()
                invariant
                    i <= self.open_files.len(),
                    out@ == base + open_file_lines(self.open_files@.take(i as int)),
                decreases self.open_files.len() - i,
            {
                let ghost before = out@;
                let path = &self.open_files[i].0;
                let f = &self.open_files[i].1;
                push_str(&mut out, "  ");
                push_str(&mut out, path.as_str());
                push_str(&mut out, " - ");
                push_decimal(&mut out, f.total_lines());
                push_str(&mut out, " lines");
                if f.modified {
                    push_str(&mut out, " (modified)");
                } else {
                    push_str(&mut out, "");
                }
                push_str(&mut out, "\n");
                proof {
                    assert(out@ == before + open_file_line(path@, *f));
                    assert(self.open_files@.take(i + 1).drop_last() == self.open_files@.take(
                        i as int,
                    ));
                    assert(self.open_files@.take(i + 1).last() == self.open_files@[i as int]);
                }
                i += 1;
            }
            assert(self.open_files@.take(self.open_files.len() as int) == self.open_files@);
        }
        from_chars(out.as_slice())
    }
}

/// Tool for displaying the state.
pub struct StateTool {
    name: String,
}

impl StateTool {
    pub fn new() -> (r: Self)
        ensures
            r.spec_name() == "_state"@,
    {
        StateTool { name: "_state".to_owned() }
    }

    /// The name under which the tool is registered.
    pub closed spec fn spec_name(&self) -> Seq<char> {
        self.name@
    }

    pub fn name(&self) -> (r: &str)
        ensures
            r@ == self.spec_name(),
    {
        self.name.as_str()
    }

    pub fn description(&self) -> (r: &'static str)
        ensures
            r@ == "Display current state of open files and tool context"@,
    {
        "Display current state of open files and tool context"
    }

    pub fn signature(&self) -> (r: &'static str)
        ensures
            r@ == "_state"@,
    {
        "_state"
    }

    /// The state tool takes no arguments: everything is accepted.
    pub fn validate_args(&self, args: &ToolArgs) -> (r: Result<(), ToolError>)
        ensures
            r is Ok,
    {
        Ok(())
    }
}

} // verus!
