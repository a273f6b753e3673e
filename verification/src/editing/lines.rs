//! Edits that address whole lines: deleting a range of lines and inserting
//! a line.

use crate::editing::scanner::without_lines;
use crate::text::{
    extend_chars, from_chars, join_lines, join_spans, lines_of, remove_lines, spans_view,
    split_line_spans, to_chars, with_final_newline,
};
use crate::tool_core::str_eq;
use vstd::prelude::*;

verus! {

/// Why a range of lines cannot be deleted.
#[derive(Debug, Clone, Copy, PartialEq, Eq, Structural)]
pub enum LineRangeError {
    /// Line numbers start at one.
    StartLineZero,
    /// The range ends before it starts.
    InvalidRange { start_line: usize, end_line: usize },
    /// The range starts after the last line.
    StartBeyondEnd { start_line: usize, total_lines: usize },
}

/// A range of lines removed from a text.
#[derive(Debug)]
pub struct DeleteLinesOutcome {
    /// The text that remains, ending in a line feed unless it is empty.
    pub content: String,
    /// The first line removed.
    pub start_line: usize,
    /// The last line removed: the end asked for, or the last line of the
    /// text where the range reached beyond it.
    pub end_line: usize,
    /// How many lines were removed.
    pub lines_deleted: usize,
    /// How many lines remain.
    pub total_lines: usize,
}

/// The smaller of two numbers.
pub open spec fn min_int(a: int, b: int) -> int {
    if a <= b {
        a
    } else {
        b
    }
}

/// What `delete_lines` owes for the lines `lines` of a text.
pub open spec fn delete_lines_result(
    r: Result<DeleteLinesOutcome, LineRangeError>,
    lines: Seq<Seq<char>>,
    start_line: usize,
    end_line: usize,
) -> bool {
    if start_line == 0 {
        r == Err::<DeleteLinesOutcome, LineRangeError>(LineRangeError::StartLineZero)
    } else if end_line < start_line {
        r == Err::<DeleteLinesOutcome, LineRangeError>(
            LineRangeError::InvalidRange { start_line, end_line },
        )
    } else if start_line > lines.len() {
        r == Err::<DeleteLinesOutcome, LineRangeError>(
            LineRangeError::StartBeyondEnd { start_line, total_lines: lines.len() as usize },
        )
    } else {
        let last = min_int(end_line as int, lines.len() as int);
        &&& r matches Ok(out)
        &&& out.content@ == with_final_newline(
            join_lines(without_lines(lines, start_line as int, last)),
        )
        &&& out.start_line == start_line
        &&& out.end_line == last
        &&& out.lines_deleted == last - start_line + 1
        &&& out.total_lines == lines.len() - out.lines_deleted
    }
}

/// Deletes the lines `start_line..=end_line` (1-based) of `content`. A range
/// that reaches beyond the last line ends at the last line.
pub fn delete_lines(content: &str, start_line: usize, end_line: usize) -> (r: Result<
    DeleteLinesOutcome,
    LineRangeError,
>)
    ensures
        delete_lines_result(r, lines_of(content@), start_line, end_line),
{
    if start_line == 0 {
        return Err(LineRangeError::StartLineZero);
    }
    if end_line < start_line {
        return Err(LineRangeError::InvalidRange { start_line, end_line });
    }
    let buf = to_chars(content);
    let spans = split_line_spans(buf.as_slice());
    let total = spans.len();
    assert(spans_view(spans@).len() == spans.len());
    if start_line > total {
        return Err(LineRangeError::StartBeyondEnd { start_line, total_lines: total });
    }
    let last: usize = if end_line > total {
        total
    } else {
        end_line
    };
    let mut rest = remove_lines(buf.as_slice(), &spans, start_line - 1, last);
    if rest.len() > 0 && rest[rest.len() - 1] != '\n' {
        rest.push('\n');
    }
    let lines_deleted: usize = last - start_line + 1;
    Ok(
        DeleteLinesOutcome {
            content: from_chars(rest.as_slice()),
            start_line,
            end_line: last,
            lines_deleted,
            total_lines: total - lines_deleted,
        },
    )
}

/// Joining two lists of lines joins their joined texts with a line feed.
pub proof fn lemma_join_concat(a: Seq<Seq<char>>, b: Seq<Seq<char>>)
    ensures
        join_lines(a + b) == if a.len() == 0 {
            join_lines(b)
        } else if b.len() == 0 {
            join_lines(a)
        } else {
            join_lines(a) + seq!['\n'] + join_lines(b)
        },
    decreases b.len(),
{
    if a.len() == 0 {
        assert(a + b == b);
    } else if b.len() == 0 {
        assert(a + b == a);
    } else {
        let b0 = b.drop_last();
        assert((a + b).drop_last() == a + b0);
        assert((a + b).last() == b.last());
        lemma_join_concat(a, b0);
        if b0.len() == 0 {
            assert(a + b0 == a);
            assert(join_lines(b) == b.last());
        } else {
            assert(join_lines(a + b) == join_lines(a) + seq!['\n'] + join_lines(b0) + seq!['\n']
                + b.last());
            assert(join_lines(b) == join_lines(b0) + seq!['\n'] + b.last());
        }
    }
}

/// Where a line is inserted relative to the line number given.
#[derive(Debug, Clone, Copy, PartialEq, Eq, Structural)]
pub enum InsertPosition {
    BeforeLine,
    AfterLine,
    AtEnd,
}

/// The position that `name` stands for, if any.
pub open spec fn position_of(name: Seq<char>) -> Option<InsertPosition> {
    if name == "before_line"@ {
        Some(InsertPosition::BeforeLine)
    } else if name == "after_line"@ {
        Some(InsertPosition::AfterLine)
    } else if name == "at_end"@ {
        Some(InsertPosition::AtEnd)
    } else {
        None
    }
}

/// Reads the name of an insert position.
pub fn parse_position(name: &str) -> (r: Option<InsertPosition>)
    ensures
        r == position_of(name@),
{
    if str_eq(name, "before_line") {
        Some(InsertPosition::BeforeLine)
    } else if str_eq(name, "after_line") {
        Some(InsertPosition::AfterLine)
    } else if str_eq(name, "at_end") {
        Some(InsertPosition::AtEnd)
    } else {
        None
    }
}

/// Why a line cannot be inserted.
#[derive(Debug, Clone, Copy, PartialEq, Eq, Structural)]
pub enum InsertError {
    /// The line number is zero or more than one past the last line.
    InvalidLineNumber { line_number: usize, total_lines: usize },
}

/// A line inserted into a text.
#[derive(Debug)]
pub struct InsertOutcome {
    /// The lines after the insertion, joined by line feeds.
    pub content: String,
    /// The 1-based number of the inserted line.
    pub line_number: usize,
    /// How many lines the text has now.
    pub total_lines: usize,
}

/// The 0-based index at which a line is inserted into `total` lines.
pub open spec fn insert_index(line_number: int, position: InsertPosition, total: int) -> int {
    match position {
        InsertPosition::BeforeLine => line_number - 1,
        InsertPosition::AfterLine => min_int(line_number, total),
        InsertPosition::AtEnd => total,
    }
}

/// What `insert_line` owes for the lines `lines` of a text.
pub open spec fn insert_line_result(
    r: Result<InsertOutcome, InsertError>,
    lines: Seq<Seq<char>>,
    line_number: usize,
    text: Seq<char>,
    position: InsertPosition,
) -> bool {
    if line_number == 0 || line_number > lines.len() + 1 {
        r == Err::<InsertOutcome, InsertError>(
            InsertError::InvalidLineNumber { line_number, total_lines: lines.len() as usize },
        )
    } else {
        let at = insert_index(line_number as int, position, lines.len() as int);
        &&& r matches Ok(out)
        &&& out.content@ == join_lines(lines.take(at) + seq![text] + lines.skip(at))
        &&& out.line_number == at + 1
        &&& out.total_lines == lines.len() + 1
    }
}

/// Inserts `text` as a line of its own before or after line `line_number`
/// (1-based) of `content`, or at its end. The line number may be one past
/// the last line.
pub fn insert_line(content: &str, line_number: usize, text: &str, position: InsertPosition) -> (r:
    Result<InsertOutcome, InsertError>)
    requires
        lines_of(content@).len() < usize::MAX,
    ensures
        insert_line_result(r, lines_of(content@), line_number, text@, position),
{
    let buf = to_chars(content);
    let spans = split_line_spans(buf.as_slice());
    let total = spans.len();
    assert(spans_view(spans@).len() == spans.len());
    if line_number == 0 || line_number > total + 1 {
        return Err(InsertError::InvalidLineNumber { line_number, total_lines: total });
    }
    let at: usize = match position {
        InsertPosition::BeforeLine => line_number - 1,
        InsertPosition::AfterLine => if line_number < total {
            line_number
        } else {
            total
        },
        InsertPosition::AtEnd => total,
    };
    let ghost f = |sp: (int, int)| buf@.subrange(sp.0, sp.1);
    let ghost lines = lines_of(buf@);
    let ghost before = lines.take(at as int);
    let ghost after = lines.skip(at as int);
    let mut out = join_spans(buf.as_slice(), &spans, 0, at);
    proof {
        assert(spans_view(spans@).subrange(0, at as int).map_values(f) == before);
        assert(out@ == join_lines(before));
    }
    if at > 0 {
        out.push('\n');
    }
    let new_line = to_chars(text);
    extend_chars(&mut out, new_line.as_slice());
    proof {
        assert(join_lines(seq![text@]) == text@);
        lemma_join_concat(before, seq![text@]);
        assert(out@ == join_lines(before + seq![text@]));
    }
    if at < total {
        out.push('\n');
        let tail = join_spans(buf.as_slice(), &spans, at, total);
        proof {
            assert(spans_view(spans@).subrange(at as int, total as int).map_values(f) == after);
        }
        extend_chars(&mut out, tail.as_slice());
    }
    proof {
        lemma_join_concat(before + seq![text@], after);
        assert(out@ == join_lines(before + seq![text@] + after));
    }
    Ok(InsertOutcome { content: from_chars(out.as_slice()), line_number: at + 1, total_lines: total + 1 })
}

} // verus!
