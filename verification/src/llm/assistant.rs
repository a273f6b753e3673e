//! Human-friendly descriptions of what a set of tool calls is about to do.

use crate::assoc::{assoc_find, assoc_get};
use crate::text::{from_chars, push_str};
use crate::tool_core::{str_eq, ParamValue};
use vstd::prelude::*;

verus! {

/// A tool call, by the tool's name and its arguments as JSON text.
#[derive(Debug, Clone)]
pub struct ToolCallInfo {
    pub name: String,
    pub arguments: String,
}

impl ToolCallInfo {
    pub fn new(name: String, arguments: String) -> (r: Self)
        ensures
            r.name == name,
            r.arguments == arguments,
    {
        ToolCallInfo { name, arguments }
    }
}

/// The string stored under `key` in the decoded arguments, if they are an
/// object that holds a string there.
pub open spec fn string_field(decoded: Option<ParamValue>, key: Seq<char>) -> Option<Seq<char>> {
    match decoded {
        Some(ParamValue::Object { fields, .. }) => match assoc_get(fields@, key) {
            Some(ParamValue::Str(s)) => Some(s@),
            _ => None,
        },
        _ => None,
    }
}

/// The sentence for a call that names a target under `key`: with the
/// target where the arguments give one, without it where they are valid but
/// give none, and a general one where the arguments could not be decoded.
pub open spec fn target_sentence(
    decoded: Option<ParamValue>,
    key: Seq<char>,
    with_target: Seq<char>,
    closing: Seq<char>,
    without_target: Seq<char>,
    undecoded: Seq<char>,
) -> Seq<char> {
    match decoded {
        None => undecoded,
        Some(_) => match string_field(decoded, key) {
            Some(t) => with_target + t + closing,
            None => without_target,
        },
    }
}

/// The names of the calls, joined by `, `.
pub open spec fn joined_names(calls: Seq<ToolCallInfo>) -> Seq<char>
    decreases calls.len(),
{
    if calls.len() == 0 {
        Seq::empty()
    } else if calls.len() == 1 {
        calls[0].name@
    } else {
        joined_names(calls.drop_last()) + ", "@ + calls.last().name@
    }
}

/// The description of a single call to the tool `name`.
pub open spec fn single_call_content(name: Seq<char>, decoded: Option<ParamValue>) -> Seq<char> {
    if name == "classify_task"@ {
        "I'll analyze and classify this "@ + "task to determine the best approach."@
    } else if name == "read_file"@ || name == "open"@ {
        target_sentence(
            decoded,
            "path"@,
            "I'll read the file at `"@,
            "`."@,
            "I'll read the specified file."@,
            "I'll read the file for you."@,
        )
    } else if name == "write_file"@ || name == "create_file"@ || name == "overwrite_file"@ {
        target_sentence(
            decoded,
            "path"@,
            "I'll write content to `"@,
            "`."@,
            "I'll write to the specified file."@,
            "I'll write the file for you."@,
        )
    } else if name == "create_directory"@ {
        "I'll create the directory structure you need."@
    } else if name == "run_command"@ || name == "execute_command"@ {
        target_sentence(
            decoded,
            "command"@,
            "I'll execute the command: `"@,
            "`"@,
            "I'll execute the specified command."@,
            "I'll execute the command for you."@,
        )
    } else if name == "submit"@ {
        "Task completed successfully."@
    } else {
        "I'll use the "@ + name + " tool to help with your request."@
    }
}

/// The description of `calls`, where `decoded` holds the decoded arguments
/// of the first call, or `None` if they are not valid JSON.
pub open spec fn assistant_content(calls: Seq<ToolCallInfo>, decoded: Option<ParamValue>) -> Seq<
    char,
> {
    if calls.len() == 0 {
        Seq::empty()
    } else if calls.len() == 1 {
        single_call_content(calls[0].name@, decoded)
    } else if calls.len() == 2 {
        "I'll help you with that by using "@ + calls[0].name@ + " and "@ + calls[1].name@ + "."@
    } else {
        "I'll work on this using multiple tools: "@ + joined_names(calls) + "."@
    }
}

fn target_sentence_exec(
    decoded: &Option<ParamValue>,
    key: &str,
    with_target: &str,
    closing: &str,
    without_target: &str,
    undecoded: &str,
) -> (r: String)
    ensures
        r@ == target_sentence(
            *decoded,
            key@,
            with_target@,
            closing@,
            without_target@,
            undecoded@,
        ),
{
    match decoded {
        None => undecoded.to_owned(),
        Some(ParamValue::Object { fields, .. }) => {
            match assoc_find(fields, key) {
                Some(i) => match &fields[i].1 {
                    ParamValue::Str(s) => {
                        let mut out: Vec<char> = Vec::new();
                        push_str(&mut out, with_target);
                        push_str(&mut out, s.as_str());
                        push_str(&mut out, closing);
                        from_chars(out.as_slice())
                    },
                    _ => without_target.to_owned(),
                },
                None => without_target.to_owned(),
            }
        },
        Some(_) => without_target.to_owned(),
    }
}

/// Describes what `tool_calls` are about to do. `decoded` holds the decoded
/// arguments of the first call, or `None` if they are not valid JSON.
pub fn generate_assistant_content(tool_calls: &[ToolCallInfo], decoded: &Option<ParamValue>) -> (r:
    String)
    ensures
        r@ == assistant_content(tool_calls@, *decoded),
{
    if tool_calls.len() == 0 {
        return String::new();
    }
    if tool_calls.len() == 1 {
        let name = tool_calls[0].name.as_str();
        if str_eq(name, "classify_task") {
            let mut out: Vec<char> = Vec::new();
            push_str(&mut out, "I'll analyze and classify this ");
            push_str(&mut out, "task to determine the best approach.");
            return from_chars(out.as_slice());
        } else if str_eq(name, "read_file") || str_eq(name, "open") {
            return target_sentence_exec(
                decoded,
                "path",
                "I'll read the file at `",
                "`.",
                "I'll read the specified file.",
                "I'll read the file for you.",
            );
        } else if str_eq(name, "write_file") || str_eq(name, "create_file") || str_eq(
            name,
            "overwrite_file",
        ) {
            return target_sentence_exec(
                decoded,
                "path",
                "I'll write content to `",
                "`.",
                "I'll write to the specified file.",
                "I'll write the file for you.",
            );
        } else if str_eq(name, "create_directory") {
            return "I'll create the directory structure you need.".to_owned();
        } else if str_eq(name, "run_command") || str_eq(name, "execute_command") {
            return target_sentence_exec(
                decoded,
                "command",
                "I'll execute the command: `",
                "`",
                "I'll execute the specified command.",
                "I'll execute the command for you.",
            );
        } else if str_eq(name, "submit") {
            return "Task completed successfully.".to_owned();
        } else {
            let mut out: Vec<char> = Vec::new();
            push_str(&mut out, "I'll use the ");
            push_str(&mut out, name);
            push_str(&mut out, " tool to help with your request.");
            return from_chars(out.as_slice());
        }
    }
    let mut out: Vec<char> = Vec::new();
    if tool_calls.len() == 2 {
        push_str(&mut out, "I'll help you with that by using ");
        push_str(&mut out, tool_calls[0].name.as_str());
        push_str(&mut out, " and ");
        push_str(&mut out, tool_calls[1].name.as_str());
        push_str(&mut out, ".");
        return from_chars(out.as_slice());
    }
    push_str(&mut out, "I'll work on this using multiple tools: ");
    let ghost base = out@;
    let mut i: usize = 0;
    assert(tool_calls@.take(0) == Seq::<ToolCallInfo>::empty());
    while i < tool_calls.len()
        invariant
            i <= tool_calls.len(),
            out@ == base + joined_names(tool_calls@.take(i as int)),
        decreases tool_calls.len() - i,
    {
        proof {
            assert(tool_calls@.take(i + 1).drop_last() == tool_calls@.take(i as int));
            assert(tool_calls@.take(i + 1).last() == tool_calls@[i as int]);
        }
        if i > 0 {
            push_str(&mut out, ", ");
        }
        push_str(&mut out, tool_calls[i].name.as_str());
        i += 1;
    }
    assert(tool_calls@.take(tool_calls.len() as int) == tool_calls@);
    push_str(&mut out, ".");
    from_chars(out.as_slice())
}

} // verus!
