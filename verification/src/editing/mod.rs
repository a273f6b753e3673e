//! File editing: normalization, match finding and selection, splicing, and
//! structural deletion of functions.

pub mod apply;
pub mod lines;
pub mod literal;
pub mod management_tools;
pub mod matching;
pub mod normalize;
pub mod scanner;
pub mod selection;
pub mod similarity;
pub mod specialized_tools;

pub use apply::EditLocation;
pub use management_tools::{CopyPathTool, CreateDirectoryTool, DeletePathTool, MovePathTool};
pub use matching::{MatchInfo, MatchingOptions};
pub use normalize::NormalizationOptions;
pub use specialized_tools::{
    CreateFileTool, DeleteFunctionTool, DeleteLineTool, DeleteTextTool, InsertTextTool,
    OverwriteFileTool, ReplaceTextTool,
};

use crate::editing::apply::{
    is_replace_outcome, replace_in_content, ReplaceOutcome,
};
use crate::editing::lines::{
    insert_line, insert_line_result, InsertError, InsertOutcome, InsertPosition,
};
use crate::editing::matching::{candidate_ranges, find_fails};
use crate::editing::normalize::normalize;
use crate::editing::similarity::Ratio;
use crate::params::{
    count_at, count_or, flag_or, flat_get, flat_view, is_source, is_validation,
    missing_parameter, nested_at, optional_count, param_bool_or, param_count_or, param_get,
    param_has, param_object, param_str, param_text_or, parse_source, required_text, source_of,
    text_at, text_or, FieldKind, FlatValue, ParamSource, PositionalField,
};
use crate::text::{from_chars, lines_of, push_str};
use crate::tool_core::{str_eq, ParamValue, Params, ToolArgs, ToolError};
use vstd::prelude::*;

verus! {

/// Edit operation modes.
#[derive(Debug, Clone, Copy, PartialEq, Eq, Structural)]
pub enum EditMode {
    Replace,
    Insert,
    Delete,
    Create,
    Overwrite,
}

/// The mode that `name` stands for, if any.
pub open spec fn mode_of(name: Seq<char>) -> Option<EditMode> {
    if name == "replace"@ {
        Some(EditMode::Replace)
    } else if name == "insert"@ {
        Some(EditMode::Insert)
    } else if name == "delete"@ {
        Some(EditMode::Delete)
    } else if name == "create"@ {
        Some(EditMode::Create)
    } else if name == "overwrite"@ {
        Some(EditMode::Overwrite)
    } else {
        None
    }
}

/// Reads the name of a mode.
pub fn parse_mode(name: &str) -> (r: Option<EditMode>)
    ensures
        r == mode_of(name@),
{
    if str_eq(name, "replace") {
        Some(EditMode::Replace)
    } else if str_eq(name, "insert") {
        Some(EditMode::Insert)
    } else if str_eq(name, "delete") {
        Some(EditMode::Delete)
    } else if str_eq(name, "create") {
        Some(EditMode::Create)
    } else if str_eq(name, "overwrite") {
        Some(EditMode::Overwrite)
    } else {
        None
    }
}

/// The normalization options that the parameters give under the key
/// `normalization`: each flag as given there, or its default; all defaults
/// where no object is given.
pub open spec fn normalization_of(params: Seq<(String, ParamValue)>) -> NormalizationOptions {
    match nested_at(params, "normalization"@) {
        Some(fields) => NormalizationOptions {
            normalize_eol: flag_or(flat_view(fields), "normalize_eol"@, true),
            trim_lines: flag_or(flat_view(fields), "trim_lines"@, false),
            normalize_whitespace: flag_or(flat_view(fields), "normalize_whitespace"@, false),
            ignore_case: flag_or(flat_view(fields), "ignore_case"@, false),
        },
        None => NormalizationOptions {
            normalize_eol: true,
            trim_lines: false,
            normalize_whitespace: false,
            ignore_case: false,
        },
    }
}

/// The threshold that the fields give under the key `fuzzy_threshold`: a
/// whole number or a fraction as given, or four fifths.
pub open spec fn threshold_of(flat: Seq<(Seq<char>, FlatValue)>) -> Ratio {
    match flat_get(flat, "fuzzy_threshold"@) {
        Some(FlatValue::Number(n)) => Ratio { num: crate::params::count_of(n), den: 1 },
        Some(FlatValue::Fraction(num, den, _)) => Ratio { num, den },
        _ => Ratio { num: 4, den: 5 },
    }
}

/// The matching options that the parameters give under the key `matching`:
/// each option as given there, or its default; all defaults where no object
/// is given.
pub open spec fn matching_of(params: Seq<(String, ParamValue)>) -> MatchingOptions {
    match nested_at(params, "matching"@) {
        Some(fields) => MatchingOptions {
            regex: flag_or(flat_view(fields), "regex"@, false),
            fuzzy: flag_or(flat_view(fields), "fuzzy"@, true),
            fuzzy_threshold: threshold_of(flat_view(fields)),
            context_lines: count_or(flat_view(fields), "context_lines"@, 3),
            max_matches: count_or(flat_view(fields), "max_matches"@, 10),
        },
        None => MatchingOptions {
            regex: false,
            fuzzy: true,
            fuzzy_threshold: Ratio { num: 4, den: 5 },
            context_lines: 3,
            max_matches: 10,
        },
    }
}

/// A request to the edit tool, with every option at its value or default.
#[derive(Debug)]
pub struct EditRequest {
    pub path: String,
    pub mode: EditMode,
    pub old_text: String,
    pub new_text: String,
    pub occurrence: Option<usize>,
    pub preview: bool,
    pub line_number: Option<usize>,
    pub normalization: NormalizationOptions,
    pub matching: MatchingOptions,
}

impl EditRequest {
    /// What reading a request from parameters owes: an error where the
    /// path is missing, the mode is unknown, or an insertion names no line;
    /// else the request with every field as the parameters give it, or at
    /// its default.
    pub open spec fn reads(r: Result<Self, ToolError>, params: Seq<(String, ParamValue)>) -> bool {
        let flat = flat_view(params);
        let mode_name = text_or(flat, "mode"@, "replace"@);
        if text_at(flat, "path"@) is None {
            r matches Err(ToolError::InvalidArgs { message }) && message@ == "Invalid path"@
        } else if mode_of(mode_name) is None {
            r matches Err(ToolError::InvalidArgs { message }) && message@ == "Unknown mode: "@
                + mode_name
        } else if mode_of(mode_name) == Some(EditMode::Insert) && count_at(flat, "line_number"@)
            is None {
            r matches Err(ToolError::InvalidArgs { message }) && message@
                == "line_number required for insert mode"@
        } else {
            r matches Ok(q) && q.path@ == text_at(flat, "path"@)->0 && Some(q.mode) == mode_of(
                mode_name,
            ) && q.old_text@ == text_or(flat, "old_text"@, ""@) && q.new_text@ == text_or(
                flat,
                "new_text"@,
                ""@,
            ) && q.occurrence == count_at(flat, "occurrence"@) && q.preview == flag_or(
                flat,
                "preview"@,
                false,
            ) && q.line_number == count_at(flat, "line_number"@) && q.normalization
                == normalization_of(params) && q.matching == matching_of(params)
        }
    }

    /// Reads a request from decoded parameters.
    pub fn from_params(params: &Params) -> (r: Result<Self, ToolError>)
        ensures
            Self::reads(r, params@),
    {
        let path = match required_text(params, "path", "Invalid path") {
            Ok(s) => s,
            Err(e) => {
                return Err(e);
            },
        };
        let mode_name = param_text_or(params, "mode", "replace");
        let old_text = param_text_or(params, "old_text", "");
        let new_text = param_text_or(params, "new_text", "");
        let occurrence = optional_count(params, "occurrence");
        let preview = param_bool_or(params, "preview", false);
        let line_number = optional_count(params, "line_number");
        let normalization = match param_object(params, "normalization") {
            Some(fields) => NormalizationOptions {
                normalize_eol: param_bool_or(fields, "normalize_eol", true),
                trim_lines: param_bool_or(fields, "trim_lines", false),
                normalize_whitespace: param_bool_or(fields, "normalize_whitespace", false),
                ignore_case: param_bool_or(fields, "ignore_case", false),
            },
            None => NormalizationOptions {
                normalize_eol: true,
                trim_lines: false,
                normalize_whitespace: false,
                ignore_case: false,
            },
        };
        let matching = match param_object(params, "matching") {
            Some(fields) => {
                let fuzzy_threshold = match param_get(fields, "fuzzy_threshold") {
                    Some(ParamValue::Unsigned(n)) => Ratio {
                        num: crate::params::to_count(*n),
                        den: 1,
                    },
                    Some(ParamValue::Fraction { numerator, denominator, .. }) => Ratio {
                        num: *numerator,
                        den: *denominator,
                    },
                    _ => Ratio { num: 4, den: 5 },
                };
                MatchingOptions {
                    regex: param_bool_or(fields, "regex", false),
                    fuzzy: param_bool_or(fields, "fuzzy", true),
                    fuzzy_threshold,
                    context_lines: param_count_or(fields, "context_lines", 3),
                    max_matches: param_count_or(fields, "max_matches", 10),
                }
            },
            None => MatchingOptions {
                regex: false,
                fuzzy: true,
                fuzzy_threshold: Ratio { num: 4, den: 5 },
                context_lines: 3,
                max_matches: 10,
            },
        };
        let mode = match parse_mode(mode_name.as_str()) {
            Some(m) => m,
            None => {
                let mut msg: Vec<char> = Vec::new();
                push_str(&mut msg, "Unknown mode: ");
                push_str(&mut msg, mode_name.as_str());
                return Err(ToolError::InvalidArgs { message: from_chars(msg.as_slice()) });
            },
        };
        if mode == EditMode::Insert && line_number.is_none() {
            return Err(
                ToolError::InvalidArgs {
                    message: "line_number required for insert mode".to_owned(),
                },
            );
        }
        Ok(
            EditRequest {
                path,
                mode,
                old_text,
                new_text,
                occurrence,
                preview,
                line_number,
                normalization,
                matching,
            },
        )
    }
}

/// The edit tool: search and replace with normalization, several matching
/// strategies and the handling of ambiguous matches.
pub struct EditTool {
    name: String,
}

/// Whether a mode named so needs no text to look for.
pub open spec fn needs_no_old_text(mode: Option<Seq<char>>) -> bool {
    match mode {
        Some(m) => m == "create"@ || m == "insert"@ || m == "overwrite"@,
        None => false,
    }
}

impl EditTool {
    pub fn new() -> (r: Self)
        ensures
            r.spec_name() == "edit"@,
    {
        EditTool { name: "edit".to_owned() }
    }

    /// The name under which the tool is registered.
    pub closed spec fn spec_name(&self) -> Seq<char> {
        self.name@
    }

    pub fn name(&self) -> (r: &str)
        ensures
            r@ == self.spec_name(),
    {
        self.name.as_str()
    }

    pub fn description(&self) -> (r: &'static str)
        ensures
            r@ == "Enhanced file editing with advanced search and replace, multiple match handling, fuzzy matching, and text normalization options"@,
    {
        "Enhanced file editing with advanced search and replace, multiple match handling, fuzzy matching, and text normalization options"
    }

    pub fn signature(&self) -> (r: &'static str)
        ensures
            r@ == "edit {\"path\": \"file.txt\", \"old_text\": \"search\", \"new_text\": \"replace\", ...}"@,
    {
        "edit {\"path\": \"file.txt\", \"old_text\": \"search\", \"new_text\": \"replace\", ...}"
    }

    /// What each positional argument means.
    pub open spec fn fields() -> Seq<PositionalField> {
        seq![
            PositionalField { name: "path", kind: FieldKind::Text },
            PositionalField { name: "old_text", kind: FieldKind::Text },
            PositionalField { name: "new_text", kind: FieldKind::Text },
            PositionalField { name: "occurrence", kind: FieldKind::OptionalNumber },
        ]
    }

    fn positional_fields() -> (r: Vec<PositionalField>)
        ensures
            r@ == Self::fields(),
    {
        vec![
            PositionalField { name: "path", kind: FieldKind::Text },
            PositionalField { name: "old_text", kind: FieldKind::Text },
            PositionalField { name: "new_text", kind: FieldKind::Text },
            PositionalField { name: "occurrence", kind: FieldKind::OptionalNumber },
        ]
    }

    /// The message for arguments that give no parameters.
    pub open spec fn usage() -> Seq<char> {
        "Invalid arguments. Use JSON format or provide path and old_text"@
    }

    /// Reads the parameters of a request from its arguments: JSON text
    /// under the name `json`, else the named arguments, else at least two
    /// positional arguments.
    pub fn parse_params(&self, args: &ToolArgs) -> (r: Result<ParamSource, ToolError>)
        ensures
            match source_of(*args, Self::fields(), 2, Self::usage()) {
                Ok(expected) => r matches Ok(src) && is_source(src, expected),
                Err(msg) => r matches Err(ToolError::InvalidArgs { message }) && message@ == msg,
            },
    {
        parse_source(
            args,
            &Self::positional_fields(),
            2,
            "Invalid arguments. Use JSON format or provide path and old_text",
        )
    }

    /// What validation owes for parameters: the path must be given, and
    /// the text to look for unless the mode creates, inserts or overwrites.
    pub open spec fn checked(flat: Seq<(Seq<char>, FlatValue)>) -> Result<(), Seq<char>> {
        if flat_get(flat, "path"@) is None {
            Err(missing_parameter("path"@))
        } else if flat_get(flat, "old_text"@) is None && !needs_no_old_text(text_at(flat, "mode"@)) {
            Err(missing_parameter("old_text"@))
        } else {
            Ok(())
        }
    }

    /// Checks that the parameters give what the mode needs.
    pub fn validate_params(&self, params: &Params) -> (r: Result<(), ToolError>)
        ensures
            is_validation(r, Self::checked(flat_view(params@))),
    {
        if !param_has(params, "path") {
            let mut msg: Vec<char> = Vec::new();
            push_str(&mut msg, "Missing required parameter: ");
            push_str(&mut msg, "path");
            return Err(ToolError::InvalidArgs { message: from_chars(msg.as_slice()) });
        }
        if !param_has(params, "old_text") {
            let exempt = match param_str(params, "mode") {
                Some(m) => str_eq(m.as_str(), "create") || str_eq(m.as_str(), "insert") || str_eq(
                    m.as_str(),
                    "overwrite",
                ),
                None => false,
            };
            if !exempt {
                let mut msg: Vec<char> = Vec::new();
                push_str(&mut msg, "Missing required parameter: ");
                push_str(&mut msg, "old_text");
                return Err(ToolError::InvalidArgs { message: from_chars(msg.as_slice()) });
            }
        }
        Ok(())
    }

    /// What validation owes for the arguments of a request.
    pub open spec fn validation(args: ToolArgs) -> Result<(), Seq<char>> {
        match source_of(args, Self::fields(), 2, Self::usage()) {
            Err(msg) => Err(msg),
            Ok(Ok(_)) => Ok(()),
            Ok(Err(flat)) => Self::checked(flat),
        }
    }

    /// Validates the arguments of a request. Parameters given as JSON text
    /// are checked once they are decoded.
    pub fn validate_args(&self, args: &ToolArgs) -> (r: Result<(), ToolError>)
        ensures
            is_validation(r, Self::validation(*args)),
    {
        match self.parse_params(args) {
            Err(e) => Err(e),
            Ok(ParamSource::Json(_)) => Ok(()),
            Ok(ParamSource::Ready(p)) => self.validate_params(&p),
        }
    }

    /// Replaces or deletes the text that `request` looks for in `content`:
    /// finds the candidates, selects one, and splices the new text into the
    /// normalized content.
    pub fn handle_replace_mode(&self, request: &EditRequest, content: &str) -> (r: Result<
        ReplaceOutcome,
        ToolError,
    >)
        ensures
            r is Err <==> find_fails(
                normalize(content@, request.normalization),
                normalize(request.old_text@, request.normalization),
                request.matching,
                request.normalization.ignore_case,
            ),
            r matches Ok(out) ==> is_replace_outcome(
                out,
                content@,
                request.old_text@,
                request.new_text@,
                request.occurrence,
                normalize(content@, request.normalization),
                candidate_ranges(
                    normalize(content@, request.normalization),
                    normalize(request.old_text@, request.normalization),
                    request.matching,
                    request.normalization.ignore_case,
                ),
                request.matching.context_lines as int,
                request.normalization,
            ),
    {
        replace_in_content(
            content,
            request.old_text.as_str(),
            request.new_text.as_str(),
            request.occurrence,
            &request.matching,
            &request.normalization,
        )
    }

    /// Inserts the new text of `request` as a line after line `line_number`
    /// of `content`.
    pub fn handle_insert_mode(&self, request: &EditRequest, line_number: usize, content: &str) -> (r:
        Result<InsertOutcome, InsertError>)
        requires
            lines_of(content@).len() < usize::MAX,
        ensures
            insert_line_result(
                r,
                lines_of(content@),
                line_number,
                request.new_text@,
                InsertPosition::AfterLine,
            ),
    {
        insert_line(content, line_number, request.new_text.as_str(), InsertPosition::AfterLine)
    }
}

} // verus!
