//! The bookkeeping around the execution of tool calls: requests, results,
//! the callback that observes them, and the texts that report them.

use crate::text::{from_chars, push_str};
use vstd::prelude::*;

verus! {

/// Result from a single tool execution.
#[derive(Debug, Clone)]
pub struct ToolExecutionResult {
    /// Tool call ID (for provider correlation).
    pub tool_call_id: String,
    /// Tool name.
    pub tool_name: String,
    /// Result content or error message.
    pub content: String,
    /// Whether the execution succeeded.
    pub success: bool,
}

/// A tool call to execute.
#[derive(Debug, Clone)]
pub struct ToolCallRequest {
    /// Tool call ID.
    pub id: String,
    /// Tool name.
    pub name: String,
    /// JSON arguments as string.
    pub arguments: String,
}

impl ToolCallRequest {
    pub fn new(id: String, name: String, arguments: String) -> (r: Self)
        ensures
            r.id == id,
            r.name == name,
            r.arguments == arguments,
    {
        ToolCallRequest { id, name, arguments }
    }
}

/// Observes the execution of tool calls, for logging.
pub trait ExecutionCallback {
    /// Called before a tool is executed.
    fn on_tool_start(&mut self, tool_name: &str, args: &str);

    /// Called after a tool was executed, whether it succeeded or failed.
    fn on_tool_complete(&mut self, tool_name: &str, args: &str, result: &str, success: bool);

    /// Called with the compact JSON form of the call.
    fn on_compact_log(&mut self, compact_json: &str);
}

/// A callback that does nothing.
pub struct NoOpCallback;

impl ExecutionCallback for NoOpCallback {
    fn on_tool_start(&mut self, _tool_name: &str, _args: &str) {
    }

    fn on_tool_complete(&mut self, _tool_name: &str, _args: &str, _result: &str, _success: bool) {
    }

    fn on_compact_log(&mut self, _compact_json: &str) {
    }
}

/// Why a tool call did not produce a result.
#[derive(Debug, Clone, Copy, PartialEq, Eq, Structural)]
pub enum CallFailure {
    /// The arguments are not valid JSON.
    Parse,
    /// The arguments could not be converted.
    Convert,
    /// The tool itself failed.
    Execution,
}

/// The message for a call that failed at `stage` with the error `detail`.
pub open spec fn failure_message(stage: CallFailure, tool_name: Seq<char>, detail: Seq<char>) -> Seq<
    char,
> {
    (match stage {
        CallFailure::Parse => "Failed to parse tool arguments for "@,
        CallFailure::Convert => "Failed to convert arguments for "@,
        CallFailure::Execution => "Tool execution failed for "@,
    }) + tool_name + ": "@ + detail
}

/// The message for a call to `tool_name` that failed at `stage`.
pub fn format_failure(stage: CallFailure, tool_name: &str, detail: &str) -> (r: String)
    ensures
        r@ == failure_message(stage, tool_name@, detail@),
{
    let mut out: Vec<char> = Vec::new();
    match stage {
        CallFailure::Parse => push_str(&mut out, "Failed to parse tool arguments for "),
        CallFailure::Convert => push_str(&mut out, "Failed to convert arguments for "),
        CallFailure::Execution => push_str(&mut out, "Tool execution failed for "),
    }
    push_str(&mut out, tool_name);
    push_str(&mut out, ": ");
    push_str(&mut out, detail);
    from_chars(out.as_slice())
}

/// The entry that reports one call in the combined output: the tool's name,
/// and its result or its error.
pub open spec fn report_entry(tool_name: Seq<char>, content: Seq<char>, success: bool) -> Seq<
    char,
> {
    "Tool: "@ + tool_name + (if success {
        "\nResult: "@
    } else {
        "\nError: "@
    }) + content
}

/// The entry that reports one call in the combined output.
pub fn format_report_entry(tool_name: &str, content: &str, success: bool) -> (r: String)
    ensures
        r@ == report_entry(tool_name@, content@, success),
{
    let mut out: Vec<char> = Vec::new();
    push_str(&mut out, "Tool: ");
    push_str(&mut out, tool_name);
    if success {
        push_str(&mut out, "\nResult: ");
    } else {
        push_str(&mut out, "\nError: ");
    }
    push_str(&mut out, content);
    from_chars(out.as_slice())
}

/// The entries joined by blank lines.
pub open spec fn joined_reports(entries: Seq<String>) -> Seq<char>
    decreases entries.len(),
{
    if entries.len() == 0 {
        Seq::empty()
    } else if entries.len() == 1 {
        entries[0]@
    } else {
        joined_reports(entries.drop_last()) + "\n\n"@ + entries.last()@
    }
}

/// The combined output of several calls: their entries joined by blank
/// lines.
pub fn join_reports(entries: &Vec<String>) -> (r: String)
    ensures
        r@ == joined_reports(entries@),
{
    let mut out: Vec<char> = Vec::new();
    let mut i: usize = 0;
    assert(entries@.take(0) == Seq::<String>::empty());
    while i < entries.len()
        invariant
            i <= entries.len(),
            out@ == joined_reports(entries@.take(i as int)),
        decreases entries.len() - i,
    {
        proof {
            assert(entries@.take(i + 1).drop_last() == entries@.take(i as int));
            assert(entries@.take(i + 1).last() == entries@[i as int]);
        }
        if i > 0 {
            push_str(&mut out, "\n\n");
        }
        push_str(&mut out, entries[i].as_str());
        i += 1;
    }
    assert(entries@.take(entries.len() as int) == entries@);
    from_chars(out.as_slice())
}

} // verus!
