//! Single-purpose editing tools: create, replace, insert, delete and
//! overwrite.

use crate::editing::lines::{
    delete_lines, delete_lines_result, insert_line, parse_position, position_of,
    DeleteLinesOutcome, InsertError, LineRangeError,
};
use crate::editing::literal::{
    all_occurrences, delete_text, is_replace_text_outcome, replace_text, ReplaceTextOutcome,
};
use crate::editing::scanner::{delete_rust_function, function_span, without_lines};
use crate::params::{
    count_at, count_of, first_missing, flat_get, flat_view, is_source, is_validation,
    missing_parameter, not_a_number, number_at, optional_count, param_get, param_has, param_str,
    parse_source, require_keys, required_number, required_text, source_of, text_at, to_count,
    validate_source, validated, FieldKind, FlatValue, ParamSource, PositionalField,
};
use crate::parse::{parse_bounded, parse_u64};
use crate::paths::{extension, path_extension};
use crate::text::{
    chars_eq, from_chars, join_lines, lines_of, push_str, to_chars, with_final_newline,
};
use crate::tool_core::{str_eq, ParamValue, Params, ToolArgs, ToolError};
use vstd::prelude::*;

verus! {

/// Tool for creating new files with content.
pub struct CreateFileTool {
    name: String,
}

impl CreateFileTool {
    pub fn new() -> (r: Self)
        ensures
            r.spec_name() == "create_file"@,
    {
        CreateFileTool { name: "create_file".to_owned() }
    }

    /// The name under which the tool is registered.
    pub closed spec fn spec_name(&self) -> Seq<char> {
        self.name@
    }

    pub fn name(&self) -> (r: &str)
        ensures
            r@ == self.spec_name(),
    {
        self.name.as_str()
    }

    pub fn description(&self) -> (r: &'static str)
        ensures
            r@ == "Create a new file with specified content"@,
    {
        "Create a new file with specified content"
    }

    pub fn signature(&self) -> (r: &'static str)
        ensures
            r@ == "create_file(path: str, content: str)"@,
    {
        "create_file(path: str, content: str)"
    }

    /// What each positional argument means.
    pub open spec fn fields() -> Seq<PositionalField> {
        seq![
            PositionalField { name: "path", kind: FieldKind::Text },
            PositionalField { name: "content", kind: FieldKind::Text },
        ]
    }

    fn positional_fields() -> (r: Vec<PositionalField>)
        ensures
            r@ == Self::fields(),
    {
        vec![
            PositionalField { name: "path", kind: FieldKind::Text },
            PositionalField { name: "content", kind: FieldKind::Text },
        ]
    }

    /// Reads the parameters of a request from its arguments: JSON text
    /// under the name `json`, else the named arguments, else at least
    /// two positional arguments.
    pub fn parse_params(&self, args: &ToolArgs) -> (r: Result<ParamSource, ToolError>)
        ensures
            match source_of(*args, Self::fields(), 2, "Insufficient parameters"@) {
                Ok(expected) => r matches Ok(src) && is_source(src, expected),
                Err(msg) => r matches Err(ToolError::InvalidArgs { message }) && message@ == msg,
            },
    {
        parse_source(args, &Self::positional_fields(), 2, "Insufficient parameters")
    }

    /// The keys to which a request must give a value.
    pub open spec fn required() -> Seq<&'static str> {
        seq!["path", "content"]
    }

    /// Checks that the parameters give a value to every required key.
    pub fn validate_params(&self, params: &Params) -> (r: Result<(), ToolError>)
        ensures
            match first_missing(flat_view(params@), Self::required()) {
                None => r is Ok,
                Some(k) => r matches Err(ToolError::InvalidArgs { message }) && message@
                    == missing_parameter(k),
            },
    {
        let required = vec!["path", "content"];
        assert(required@ == Self::required());
        require_keys(params, required.as_slice())
    }

    /// Validates the arguments of a request. Parameters given as JSON text
    /// are checked once they are decoded.
    pub fn validate_args(&self, args: &ToolArgs) -> (r: Result<(), ToolError>)
        ensures
            is_validation(
                r,
                validated(
                    source_of(*args, Self::fields(), 2, "Insufficient parameters"@),
                    Self::required(),
                ),
            ),
    {
        let required = vec!["path", "content"];
        assert(required@ == Self::required());
        validate_source(
            args,
            &Self::positional_fields(),
            2,
            "Insufficient parameters",
            required.as_slice(),
        )
    }
}

/// A request to create a file.
#[derive(Debug)]
pub struct CreateFileRequest {
    pub path: String,
    pub content: String,
}

impl CreateFileRequest {
    /// What reading a request from parameters owes: an error for the first
    /// required parameter that is missing or of the wrong kind, else the
    /// request with every field as the parameters give it.
    pub open spec fn reads(r: Result<Self, ToolError>, flat: Seq<(Seq<char>, FlatValue)>) -> bool {
        if text_at(flat, "path"@) is None {
            r matches Err(ToolError::InvalidArgs { message }) && message@ == "Invalid path parameter"@
        } else if text_at(flat, "content"@) is None {
            r matches Err(ToolError::InvalidArgs { message }) && message@ == "Invalid content parameter"@
        } else {
            r matches Ok(q) && q.path@ == text_at(flat, "path"@)->0
                && q.content@ == text_at(flat, "content"@)->0
        }
    }

    /// Reads a request from decoded parameters.
    pub fn from_params(params: &Params) -> (r: Result<Self, ToolError>)
        ensures
            Self::reads(r, flat_view(params@)),
    {
        let path = match required_text(params, "path", "Invalid path parameter") {
            Ok(s) => s,
            Err(e) => {
                return Err(e);
            },
        };
        let content = match required_text(params, "content", "Invalid content parameter") {
            Ok(s) => s,
            Err(e) => {
                return Err(e);
            },
        };
        Ok(CreateFileRequest { path, content })
    }
}

/// Tool for replacing text in files.
pub struct ReplaceTextTool {
    name: String,
}

impl ReplaceTextTool {
    pub fn new() -> (r: Self)
        ensures
            r.spec_name() == "replace_text"@,
    {
        ReplaceTextTool { name: "replace_text".to_owned() }
    }

    /// The name under which the tool is registered.
    pub closed spec fn spec_name(&self) -> Seq<char> {
        self.name@
    }

    pub fn name(&self) -> (r: &str)
        ensures
            r@ == self.spec_name(),
    {
        self.name.as_str()
    }

    pub fn description(&self) -> (r: &'static str)
        ensures
            r@ == "Replace specific text in a file"@,
    {
        "Replace specific text in a file"
    }

    pub fn signature(&self) -> (r: &'static str)
        ensures
            r@ == "replace_text(path: str, old_text: str, new_text: str, occurrence?: int)"@,
    {
        "replace_text(path: str, old_text: str, new_text: str, occurrence?: int)"
    }

    /// What each positional argument means.
    pub open spec fn fields() -> Seq<PositionalField> {
        seq![
            PositionalField { name: "path", kind: FieldKind::Text },
            PositionalField { name: "old_text", kind: FieldKind::Text },
            PositionalField { name: "new_text", kind: FieldKind::Text },
            PositionalField { name: "occurrence", kind: FieldKind::OptionalNumber },
        ]
    }

    fn positional_fields() -> (r: Vec<PositionalField>)
        ensures
            r@ == Self::fields(),
    {
        vec![
            PositionalField { name: "path", kind: FieldKind::Text },
            PositionalField { name: "old_text", kind: FieldKind::Text },
            PositionalField { name: "new_text", kind: FieldKind::Text },
            PositionalField { name: "occurrence", kind: FieldKind::OptionalNumber },
        ]
    }

    /// Reads the parameters of a request from its arguments: JSON text
    /// under the name `json`, else the named arguments, else at least
    /// three positional arguments.
    pub fn parse_params(&self, args: &ToolArgs) -> (r: Result<ParamSource, ToolError>)
        ensures
            match source_of(*args, Self::fields(), 3, "Insufficient parameters"@) {
                Ok(expected) => r matches Ok(src) && is_source(src, expected),
                Err(msg) => r matches Err(ToolError::InvalidArgs { message }) && message@ == msg,
            },
    {
        parse_source(args, &Self::positional_fields(), 3, "Insufficient parameters")
    }

    /// The keys to which a request must give a value.
    pub open spec fn required() -> Seq<&'static str> {
        seq!["path", "old_text", "new_text"]
    }

    /// Checks that the parameters give a value to every required key.
    pub fn validate_params(&self, params: &Params) -> (r: Result<(), ToolError>)
        ensures
            match first_missing(flat_view(params@), Self::required()) {
                None => r is Ok,
                Some(k) => r matches Err(ToolError::InvalidArgs { message }) && message@
                    == missing_parameter(k),
            },
    {
        let required = vec!["path", "old_text", "new_text"];
        assert(required@ == Self::required());
        require_keys(params, required.as_slice())
    }

    /// Validates the arguments of a request. Parameters given as JSON text
    /// are checked once they are decoded.
    pub fn validate_args(&self, args: &ToolArgs) -> (r: Result<(), ToolError>)
        ensures
            is_validation(
                r,
                validated(
                    source_of(*args, Self::fields(), 3, "Insufficient parameters"@),
                    Self::required(),
                ),
            ),
    {
        let required = vec!["path", "old_text", "new_text"];
        assert(required@ == Self::required());
        validate_source(
            args,
            &Self::positional_fields(),
            3,
            "Insufficient parameters",
            required.as_slice(),
        )
    }
}

/// A request to replace text.
#[derive(Debug)]
pub struct ReplaceTextRequest {
    pub path: String,
    pub old_text: String,
    pub new_text: String,
    pub occurrence: Option<usize>,
}

impl ReplaceTextRequest {
    /// What reading a request from parameters owes: an error for the first
    /// required parameter that is missing or of the wrong kind, else the
    /// request with every field as the parameters give it.
    pub open spec fn reads(r: Result<Self, ToolError>, flat: Seq<(Seq<char>, FlatValue)>) -> bool {
        if text_at(flat, "path"@) is None {
            r matches Err(ToolError::InvalidArgs { message }) && message@ == "Invalid path parameter"@
        } else if text_at(flat, "old_text"@) is None {
            r matches Err(ToolError::InvalidArgs { message }) && message@ == "Invalid old_text parameter"@
        } else if text_at(flat, "new_text"@) is None {
            r matches Err(ToolError::InvalidArgs { message }) && message@ == "Invalid new_text parameter"@
        } else {
            r matches Ok(q) && q.path@ == text_at(flat, "path"@)->0
                && q.old_text@ == text_at(flat, "old_text"@)->0
                && q.new_text@ == text_at(flat, "new_text"@)->0
                && q.occurrence == count_at(flat, "occurrence"@)
        }
    }

    /// Reads a request from decoded parameters.
    pub fn from_params(params: &Params) -> (r: Result<Self, ToolError>)
        ensures
            Self::reads(r, flat_view(params@)),
    {
        let path = match required_text(params, "path", "Invalid path parameter") {
            Ok(s) => s,
            Err(e) => {
                return Err(e);
            },
        };
        let old_text = match required_text(params, "old_text", "Invalid old_text parameter") {
            Ok(s) => s,
            Err(e) => {
                return Err(e);
            },
        };
        let new_text = match required_text(params, "new_text", "Invalid new_text parameter") {
            Ok(s) => s,
            Err(e) => {
                return Err(e);
            },
        };
        let occurrence = optional_count(params, "occurrence");
        Ok(ReplaceTextRequest { path, old_text, new_text, occurrence })
    }
}

/// Tool for deleting text from files.
pub struct DeleteTextTool {
    name: String,
}

impl DeleteTextTool {
    pub fn new() -> (r: Self)
        ensures
            r.spec_name() == "delete_text"@,
    {
        DeleteTextTool { name: "delete_text".to_owned() }
    }

    /// The name under which the tool is registered.
    pub closed spec fn spec_name(&self) -> Seq<char> {
        self.name@
    }

    pub fn name(&self) -> (r: &str)
        ensures
            r@ == self.spec_name(),
    {
        self.name.as_str()
    }

    pub fn description(&self) -> (r: &'static str)
        ensures
            r@ == "Delete specific text from a file"@,
    {
        "Delete specific text from a file"
    }

    pub fn signature(&self) -> (r: &'static str)
        ensures
            r@ == "delete_text(path: str, text_to_delete: str, occurrence?: int)"@,
    {
        "delete_text(path: str, text_to_delete: str, occurrence?: int)"
    }

    /// What each positional argument means.
    pub open spec fn fields() -> Seq<PositionalField> {
        seq![
            PositionalField { name: "path", kind: FieldKind::Text },
            PositionalField { name: "text_to_delete", kind: FieldKind::Text },
            PositionalField { name: "occurrence", kind: FieldKind::OptionalNumber },
        ]
    }

    fn positional_fields() -> (r: Vec<PositionalField>)
        ensures
            r@ == Self::fields(),
    {
        vec![
            PositionalField { name: "path", kind: FieldKind::Text },
            PositionalField { name: "text_to_delete", kind: FieldKind::Text },
            PositionalField { name: "occurrence", kind: FieldKind::OptionalNumber },
        ]
    }

    /// Reads the parameters of a request from its arguments: JSON text
    /// under the name `json`, else the named arguments, else at least
    /// two positional arguments.
    pub fn parse_params(&self, args: &ToolArgs) -> (r: Result<ParamSource, ToolError>)
        ensures
            match source_of(*args, Self::fields(), 2, "Insufficient parameters"@) {
                Ok(expected) => r matches Ok(src) && is_source(src, expected),
                Err(msg) => r matches Err(ToolError::InvalidArgs { message }) && message@ == msg,
            },
    {
        parse_source(args, &Self::positional_fields(), 2, "Insufficient parameters")
    }

    /// The keys to which a request must give a value.
    pub open spec fn required() -> Seq<&'static str> {
        seq!["path", "text_to_delete"]
    }

    /// Checks that the parameters give a value to every required key.
    pub fn validate_params(&self, params: &Params) -> (r: Result<(), ToolError>)
        ensures
            match first_missing(flat_view(params@), Self::required()) {
                None => r is Ok,
                Some(k) => r matches Err(ToolError::InvalidArgs { message }) && message@
                    == missing_parameter(k),
            },
    {
        let required = vec!["path", "text_to_delete"];
        assert(required@ == Self::required());
        require_keys(params, required.as_slice())
    }

    /// Validates the arguments of a request. Parameters given as JSON text
    /// are checked once they are decoded.
    pub fn validate_args(&self, args: &ToolArgs) -> (r: Result<(), ToolError>)
        ensures
            is_validation(
                r,
                validated(
                    source_of(*args, Self::fields(), 2, "Insufficient parameters"@),
                    Self::required(),
                ),
            ),
    {
        let required = vec!["path", "text_to_delete"];
        assert(required@ == Self::required());
        validate_source(
            args,
            &Self::positional_fields(),
            2,
            "Insufficient parameters",
            required.as_slice(),
        )
    }
}

/// A request to delete text.
#[derive(Debug)]
pub struct DeleteTextRequest {
    pub path: String,
    pub text_to_delete: String,
    pub occurrence: Option<usize>,
}

impl DeleteTextRequest {
    /// What reading a request from parameters owes: an error for the first
    /// required parameter that is missing or of the wrong kind, else the
    /// request with every field as the parameters give it.
    pub open spec fn reads(r: Result<Self, ToolError>, flat: Seq<(Seq<char>, FlatValue)>) -> bool {
        if text_at(flat, "path"@) is None {
            r matches Err(ToolError::InvalidArgs { message }) && message@ == "Invalid path parameter"@
        } else if text_at(flat, "text_to_delete"@) is None {
            r matches Err(ToolError::InvalidArgs { message }) && message@ == "Invalid text_to_delete parameter"@
        } else {
            r matches Ok(q) && q.path@ == text_at(flat, "path"@)->0
                && q.text_to_delete@ == text_at(flat, "text_to_delete"@)->0
                && q.occurrence == count_at(flat, "occurrence"@)
        }
    }

    /// Reads a request from decoded parameters.
    pub fn from_params(params: &Params) -> (r: Result<Self, ToolError>)
        ensures
            Self::reads(r, flat_view(params@)),
    {
        let path = match required_text(params, "path", "Invalid path parameter") {
            Ok(s) => s,
            Err(e) => {
                return Err(e);
            },
        };
        let text_to_delete = match required_text(params, "text_to_delete", "Invalid text_to_delete parameter") {
            Ok(s) => s,
            Err(e) => {
                return Err(e);
            },
        };
        let occurrence = optional_count(params, "occurrence");
        Ok(DeleteTextRequest { path, text_to_delete, occurrence })
    }
}

/// Tool for overwriting entire files.
pub struct OverwriteFileTool {
    name: String,
}

impl OverwriteFileTool {
    pub fn new() -> (r: Self)
        ensures
            r.spec_name() == "overwrite_file"@,
    {
        OverwriteFileTool { name: "overwrite_file".to_owned() }
    }

    /// The name under which the tool is registered.
    pub closed spec fn spec_name(&self) -> Seq<char> {
        self.name@
    }

    pub fn name(&self) -> (r: &str)
        ensures
            r@ == self.spec_name(),
    {
        self.name.as_str()
    }

    pub fn description(&self) -> (r: &'static str)
        ensures
            r@ == "Overwrite entire file with new content"@,
    {
        "Overwrite entire file with new content"
    }

    pub fn signature(&self) -> (r: &'static str)
        ensures
            r@ == "overwrite_file(path: str, content: str)"@,
    {
        "overwrite_file(path: str, content: str)"
    }

    /// What each positional argument means.
    pub open spec fn fields() -> Seq<PositionalField> {
        seq![
            PositionalField { name: "path", kind: FieldKind::Text },
            PositionalField { name: "content", kind: FieldKind::Text },
        ]
    }

    fn positional_fields() -> (r: Vec<PositionalField>)
        ensures
            r@ == Self::fields(),
    {
        vec![
            PositionalField { name: "path", kind: FieldKind::Text },
            PositionalField { name: "content", kind: FieldKind::Text },
        ]
    }

    /// Reads the parameters of a request from its arguments: JSON text
    /// under the name `json`, else the named arguments, else at least
    /// two positional arguments.
    pub fn parse_params(&self, args: &ToolArgs) -> (r: Result<ParamSource, ToolError>)
        ensures
            match source_of(*args, Self::fields(), 2, "Insufficient parameters"@) {
                Ok(expected) => r matches Ok(src) && is_source(src, expected),
                Err(msg) => r matches Err(ToolError::InvalidArgs { message }) && message@ == msg,
            },
    {
        parse_source(args, &Self::positional_fields(), 2, "Insufficient parameters")
    }

    /// The keys to which a request must give a value.
    pub open spec fn required() -> Seq<&'static str> {
        seq!["path", "content"]
    }

    /// Checks that the parameters give a value to every required key.
    pub fn validate_params(&self, params: &Params) -> (r: Result<(), ToolError>)
        ensures
            match first_missing(flat_view(params@), Self::required()) {
                None => r is Ok,
                Some(k) => r matches Err(ToolError::InvalidArgs { message }) && message@
                    == missing_parameter(k),
            },
    {
        let required = vec!["path", "content"];
        assert(required@ == Self::required());
        require_keys(params, required.as_slice())
    }

    /// Validates the arguments of a request. Parameters given as JSON text
    /// are checked once they are decoded.
    pub fn validate_args(&self, args: &ToolArgs) -> (r: Result<(), ToolError>)
        ensures
            is_validation(
                r,
                validated(
                    source_of(*args, Self::fields(), 2, "Insufficient parameters"@),
                    Self::required(),
                ),
            ),
    {
        let required = vec!["path", "content"];
        assert(required@ == Self::required());
        validate_source(
            args,
            &Self::positional_fields(),
            2,
            "Insufficient parameters",
            required.as_slice(),
        )
    }
}

/// A request to overwrite a file.
#[derive(Debug)]
pub struct OverwriteFileRequest {
    pub path: String,
    pub content: String,
}

impl OverwriteFileRequest {
    /// What reading a request from parameters owes: an error for the first
    /// required parameter that is missing or of the wrong kind, else the
    /// request with every field as the parameters give it.
    pub open spec fn reads(r: Result<Self, ToolError>, flat: Seq<(Seq<char>, FlatValue)>) -> bool {
        if text_at(flat, "path"@) is None {
            r matches Err(ToolError::InvalidArgs { message }) && message@ == "Invalid path parameter"@
        } else if text_at(flat, "content"@) is None {
            r matches Err(ToolError::InvalidArgs { message }) && message@ == "Invalid content parameter"@
        } else {
            r matches Ok(q) && q.path@ == text_at(flat, "path"@)->0
                && q.content@ == text_at(flat, "content"@)->0
        }
    }

    /// Reads a request from decoded parameters.
    pub fn from_params(params: &Params) -> (r: Result<Self, ToolError>)
        ensures
            Self::reads(r, flat_view(params@)),
    {
        let path = match required_text(params, "path", "Invalid path parameter") {
            Ok(s) => s,
            Err(e) => {
                return Err(e);
            },
        };
        let content = match required_text(params, "content", "Invalid content parameter") {
            Ok(s) => s,
            Err(e) => {
                return Err(e);
            },
        };
        Ok(OverwriteFileRequest { path, content })
    }
}

/// Tool for inserting text at a specific line.
pub struct InsertTextTool {
    name: String,
}

impl InsertTextTool {
    pub fn new() -> (r: Self)
        ensures
            r.spec_name() == "insert_text"@,
    {
        InsertTextTool { name: "insert_text".to_owned() }
    }

    /// The name under which the tool is registered.
    pub closed spec fn spec_name(&self) -> Seq<char> {
        self.name@
    }

    pub fn name(&self) -> (r: &str)
        ensures
            r@ == self.spec_name(),
    {
        self.name.as_str()
    }

    pub fn description(&self) -> (r: &'static str)
        ensures
            r@ == "Insert text at a specific line in a file"@,
    {
        "Insert text at a specific line in a file"
    }

    pub fn signature(&self) -> (r: &'static str)
        ensures
            r@ == "insert_text(path: str, line_number: int, text: str, position?: str)"@,
    {
        "insert_text(path: str, line_number: int, text: str, position?: str)"
    }

    /// What each positional argument means.
    pub open spec fn fields() -> Seq<PositionalField> {
        seq![
            PositionalField { name: "path", kind: FieldKind::Text },
            PositionalField { name: "line_number", kind: FieldKind::Number },
            PositionalField { name: "text", kind: FieldKind::Text },
            PositionalField { name: "position", kind: FieldKind::Text },
        ]
    }

    fn positional_fields() -> (r: Vec<PositionalField>)
        ensures
            r@ == Self::fields(),
    {
        vec![
            PositionalField { name: "path", kind: FieldKind::Text },
            PositionalField { name: "line_number", kind: FieldKind::Number },
            PositionalField { name: "text", kind: FieldKind::Text },
            PositionalField { name: "position", kind: FieldKind::Text },
        ]
    }

    /// Reads the parameters of a request from its arguments: JSON text
    /// under the name `json`, else the named arguments, else at least
    /// three positional arguments.
    pub fn parse_params(&self, args: &ToolArgs) -> (r: Result<ParamSource, ToolError>)
        ensures
            match source_of(*args, Self::fields(), 3, "Insufficient parameters"@) {
                Ok(expected) => r matches Ok(src) && is_source(src, expected),
                Err(msg) => r matches Err(ToolError::InvalidArgs { message }) && message@ == msg,
            },
    {
        parse_source(args, &Self::positional_fields(), 3, "Insufficient parameters")
    }

    /// The keys to which a request must give a value.
    pub open spec fn required() -> Seq<&'static str> {
        seq!["path", "line_number", "text"]
    }

    /// Checks that the parameters give a value to every required key.
    pub fn validate_params(&self, params: &Params) -> (r: Result<(), ToolError>)
        ensures
            match first_missing(flat_view(params@), Self::required()) {
                None => r is Ok,
                Some(k) => r matches Err(ToolError::InvalidArgs { message }) && message@
                    == missing_parameter(k),
            },
    {
        let required = vec!["path", "line_number", "text"];
        assert(required@ == Self::required());
        require_keys(params, required.as_slice())
    }

    /// Validates the arguments of a request. Parameters given as JSON text
    /// are checked once they are decoded.
    pub fn validate_args(&self, args: &ToolArgs) -> (r: Result<(), ToolError>)
        ensures
            is_validation(
                r,
                validated(
                    source_of(*args, Self::fields(), 3, "Insufficient parameters"@),
                    Self::required(),
                ),
            ),
    {
        let required = vec!["path", "line_number", "text"];
        assert(required@ == Self::required());
        validate_source(
            args,
            &Self::positional_fields(),
            3,
            "Insufficient parameters",
            required.as_slice(),
        )
    }
}

/// Tool for deleting lines by range.
pub struct DeleteLineTool {
    name: String,
}

impl DeleteLineTool {
    pub fn new() -> (r: Self)
        ensures
            r.spec_name() == "delete_line"@,
    {
        DeleteLineTool { name: "delete_line".to_owned() }
    }

    /// The name under which the tool is registered.
    pub closed spec fn spec_name(&self) -> Seq<char> {
        self.name@
    }

    pub fn name(&self) -> (r: &str)
        ensures
            r@ == self.spec_name(),
    {
        self.name.as_str()
    }

    pub fn description(&self) -> (r: &'static str)
        ensures
            r@ == "Delete a range of lines from a file (inclusive)"@,
    {
        "Delete a range of lines from a file (inclusive)"
    }

    pub fn signature(&self) -> (r: &'static str)
        ensures
            r@ == "delete_line(path: str, start_line: int, end_line: int)"@,
    {
        "delete_line(path: str, start_line: int, end_line: int)"
    }

    /// What each positional argument means.
    pub open spec fn fields() -> Seq<PositionalField> {
        seq![
            PositionalField { name: "path", kind: FieldKind::Text },
            PositionalField { name: "start_line", kind: FieldKind::Number },
            PositionalField { name: "end_line", kind: FieldKind::Number },
        ]
    }

    fn positional_fields() -> (r: Vec<PositionalField>)
        ensures
            r@ == Self::fields(),
    {
        vec![
            PositionalField { name: "path", kind: FieldKind::Text },
            PositionalField { name: "start_line", kind: FieldKind::Number },
            PositionalField { name: "end_line", kind: FieldKind::Number },
        ]
    }

    /// The keys to which a request must give a value.
    pub open spec fn required() -> Seq<&'static str> {
        seq!["path", "start_line", "end_line"]
    }

    /// What the arguments give as the parameters of a request: JSON text
    /// under the name `json`; else the named arguments, the line numbers
    /// among them read as numbers; else at least three positional
    /// arguments.
    pub open spec fn source(args: ToolArgs) -> Result<
        Result<Seq<char>, Seq<(Seq<char>, FlatValue)>>,
        Seq<char>,
    > {
        match args.named("json"@) {
            Some(text) => Ok(Ok(text)),
            None => if args.named_args.len() > 0 {
                match numeric_named_params(args.named_args@, args.named_args.len() as int) {
                    Ok(flat) => Ok(Err(flat)),
                    Err(msg) => Err(msg),
                }
            } else {
                source_of(args, Self::fields(), 3, "Insufficient parameters"@)
            },
        }
    }

    /// Reads the parameters of a request from its arguments.
    pub fn parse_params(&self, args: &ToolArgs) -> (r: Result<ParamSource, ToolError>)
        ensures
            match Self::source(*args) {
                Ok(expected) => r matches Ok(src) && is_source(src, expected),
                Err(msg) => r matches Err(ToolError::InvalidArgs { message }) && message@ == msg,
            },
    {
        match args.get_named_arg("json") {
            Some(text) => Ok(ParamSource::Json(text.clone())),
            None => {
                if args.named_args.len() > 0 {
                    match params_from_numeric_named(&args.named_args) {
                        Ok(p) => Ok(ParamSource::Ready(p)),
                        Err(e) => Err(e),
                    }
                } else {
                    parse_source(args, &Self::positional_fields(), 3, "Insufficient parameters")
                }
            },
        }
    }

    /// Checks that the parameters give a value to every required key.
    pub fn validate_params(&self, params: &Params) -> (r: Result<(), ToolError>)
        ensures
            match first_missing(flat_view(params@), Self::required()) {
                None => r is Ok,
                Some(k) => r matches Err(ToolError::InvalidArgs { message }) && message@
                    == missing_parameter(k),
            },
    {
        let required = vec!["path", "start_line", "end_line"];
        assert(required@ == Self::required());
        require_keys(params, required.as_slice())
    }

    /// Validates the arguments of a request. Parameters given as JSON text
    /// are checked once they are decoded.
    pub fn validate_args(&self, args: &ToolArgs) -> (r: Result<(), ToolError>)
        ensures
            is_validation(r, validated(Self::source(*args), Self::required())),
    {
        match self.parse_params(args) {
            Err(e) => Err(e),
            Ok(ParamSource::Json(_)) => Ok(()),
            Ok(ParamSource::Ready(p)) => self.validate_params(&p),
        }
    }

    /// Deletes the lines that `request` names from `content`.
    pub fn run(&self, request: &DeleteLineRequest, content: &str) -> (r: Result<
        DeleteLinesOutcome,
        LineRangeError,
    >)
        ensures
            delete_lines_result(r, lines_of(content@), request.start_line, request.end_line),
    {
        delete_lines(content, request.start_line, request.end_line)
    }
}

/// Whether a named argument is one of the line numbers of a range.
pub open spec fn is_line_key(key: Seq<char>) -> bool {
    key == "start_line"@ || key == "end_line"@
}

/// The first `upto` named arguments as parameters, the line numbers among
/// them read as numbers; or the message of the error for the first line
/// number that is none.
pub open spec fn numeric_named_params(named: Seq<(String, String)>, upto: int) -> Result<
    Seq<(Seq<char>, FlatValue)>,
    Seq<char>,
>
    decreases upto,
{
    if upto <= 0 {
        Ok(Seq::empty())
    } else {
        match numeric_named_params(named, upto - 1) {
            Err(e) => Err(e),
            Ok(before) => {
                let key = named[upto - 1].0@;
                let value = named[upto - 1].1@;
                if is_line_key(key) {
                    match parse_bounded(value, u64::MAX as nat) {
                        Some(n) => Ok(before.push((key, FlatValue::Number(n as u64)))),
                        None => Err(not_a_number(key)),
                    }
                } else {
                    Ok(before.push((key, FlatValue::Text(value))))
                }
            },
        }
    }
}

/// An error at one named argument is the error of every longer run.
proof fn lemma_numeric_named_error(named: Seq<(String, String)>, at: int, upto: int)
    requires
        0 < at <= upto,
        numeric_named_params(named, at) is Err,
    ensures
        numeric_named_params(named, upto) == numeric_named_params(named, at),
    decreases upto - at,
{
    if at < upto {
        lemma_numeric_named_error(named, at, upto - 1);
    }
}

/// Parameters from named arguments, the line numbers among them read as
/// numbers.
pub fn params_from_numeric_named(named: &Vec<(String, String)>) -> (r: Result<Params, ToolError>)
    ensures
        match numeric_named_params(named@, named.len() as int) {
            Ok(flat) => r matches Ok(p) && flat_view(p@) == flat,
            Err(msg) => r matches Err(ToolError::InvalidArgs { message }) && message@ == msg,
        },
{
    let mut r: Params = Vec::new();
    let mut i: usize = 0;
    assert(flat_view(r@) == Seq::<(Seq<char>, FlatValue)>::empty());
    while i < named.len()
        invariant
            i <= named.len(),
            numeric_named_params(named@, i as int) == Ok::<Seq<(Seq<char>, FlatValue)>, Seq<char>>(
                flat_view(r@),
            ),
        decreases named.len() - i,
    {
        let key = named[i].0.as_str();
        let value = named[i].1.as_str();
        let ghost before = r@;
        if str_eq(key, "start_line") || str_eq(key, "end_line") {
            match parse_u64(value) {
                Some(n) => {
                    r.push((named[i].0.clone(), ParamValue::Unsigned(n)));
                    assert(flat_view(r@) == flat_view(before).push((key@, FlatValue::Number(n))));
                },
                None => {
                    let mut msg: Vec<char> = Vec::new();
                    push_str(&mut msg, "Invalid ");
                    push_str(&mut msg, key);
                    push_str(&mut msg, " - must be a number");
                    proof {
                        assert(numeric_named_params(named@, i + 1) == Err::<
                            Seq<(Seq<char>, FlatValue)>,
                            Seq<char>,
                        >(not_a_number(key@)));
                        lemma_numeric_named_error(named@, i + 1, named.len() as int);
                    }
                    return Err(ToolError::InvalidArgs { message: from_chars(msg.as_slice()) });
                },
            }
        } else {
            r.push((named[i].0.clone(), ParamValue::Str(named[i].1.clone())));
            assert(flat_view(r@) == flat_view(before).push((key@, FlatValue::Text(value@))));
        }
        i += 1;
    }
    Ok(r)
}

/// A request to delete a range of lines.
#[derive(Debug)]
pub struct DeleteLineRequest {
    pub path: String,
    pub start_line: usize,
    pub end_line: usize,
}

impl DeleteLineRequest {
    /// What reading a request from parameters owes: an error for the first
    /// required parameter that is missing or of the wrong kind, else the
    /// request with every field as the parameters give it.
    pub open spec fn reads(r: Result<Self, ToolError>, flat: Seq<(Seq<char>, FlatValue)>) -> bool {
        if text_at(flat, "path"@) is None {
            r matches Err(ToolError::InvalidArgs { message }) && message@ == "Invalid path parameter"@
        } else if number_at(flat, "start_line"@) is None {
            r matches Err(ToolError::InvalidArgs { message }) && message@ == "Invalid start_line parameter"@
        } else if number_at(flat, "end_line"@) is None {
            r matches Err(ToolError::InvalidArgs { message }) && message@ == "Invalid end_line parameter"@
        } else {
            r matches Ok(q) && q.path@ == text_at(flat, "path"@)->0
                && q.start_line == count_of(number_at(flat, "start_line"@)->0)
                && q.end_line == count_of(number_at(flat, "end_line"@)->0)
        }
    }

    /// Reads a request from decoded parameters.
    pub fn from_params(params: &Params) -> (r: Result<Self, ToolError>)
        ensures
            Self::reads(r, flat_view(params@)),
    {
        let path = match required_text(params, "path", "Invalid path parameter") {
            Ok(s) => s,
            Err(e) => {
                return Err(e);
            },
        };
        let start_line = match required_number(params, "start_line", "Invalid start_line parameter") {
            Ok(n) => to_count(n),
            Err(e) => {
                return Err(e);
            },
        };
        let end_line = match required_number(params, "end_line", "Invalid end_line parameter") {
            Ok(n) => to_count(n),
            Err(e) => {
                return Err(e);
            },
        };
        Ok(DeleteLineRequest { path, start_line, end_line })
    }
}

/// A request to insert a line of text.
#[derive(Debug)]
pub struct InsertTextRequest {
    pub path: String,
    pub line_number: usize,
    pub text: String,
    pub position: String,
}

/// The line number that the parameters give: a number, or a string that
/// reads as one.
pub open spec fn line_number_at(flat: Seq<(Seq<char>, FlatValue)>) -> Option<usize> {
    match flat_get(flat, "line_number"@) {
        Some(FlatValue::Number(n)) => Some(count_of(n)),
        Some(FlatValue::Text(t)) => match parse_bounded(t, u64::MAX as nat) {
            Some(n) => Some(count_of(n as u64)),
            None => None,
        },
        _ => None,
    }
}

impl InsertTextRequest {
    /// What reading a request from parameters owes: an error for the first
    /// required parameter that is missing or of the wrong kind, else the
    /// request with every field as the parameters give it. The position is
    /// `after_line` unless the parameters say otherwise.
    pub open spec fn reads(r: Result<Self, ToolError>, flat: Seq<(Seq<char>, FlatValue)>) -> bool {
        if text_at(flat, "path"@) is None {
            r matches Err(ToolError::InvalidArgs { message }) && message@
                == "Invalid path parameter"@
        } else if line_number_at(flat) is None {
            r matches Err(ToolError::InvalidArgs { message }) && message@
                == "Invalid line_number parameter"@
        } else if text_at(flat, "text"@) is None {
            r matches Err(ToolError::InvalidArgs { message }) && message@
                == "Invalid text parameter"@
        } else {
            r matches Ok(q) && q.path@ == text_at(flat, "path"@)->0 && q.line_number
                == line_number_at(flat)->0 && q.text@ == text_at(flat, "text"@)->0 && q.position@
                == match text_at(flat, "position"@) {
                Some(p) => p,
                None => "after_line"@,
            }
        }
    }

    /// Reads a request from decoded parameters.
    pub fn from_params(params: &Params) -> (r: Result<Self, ToolError>)
        ensures
            Self::reads(r, flat_view(params@)),
    {
        let path = match required_text(params, "path", "Invalid path parameter") {
            Ok(s) => s,
            Err(e) => {
                return Err(e);
            },
        };
        let number: Option<usize> = match param_get(params, "line_number") {
            Some(ParamValue::Unsigned(n)) => Some(to_count(*n)),
            Some(ParamValue::Str(s)) => match parse_u64(s.as_str()) {
                Some(n) => Some(to_count(n)),
                None => None,
            },
            _ => None,
        };
        let line_number = match number {
            Some(n) => n,
            None => {
                return Err(
                    ToolError::InvalidArgs { message: "Invalid line_number parameter".to_owned() },
                );
            },
        };
        let text = match required_text(params, "text", "Invalid text parameter") {
            Ok(s) => s,
            Err(e) => {
                return Err(e);
            },
        };
        let position = match param_str(params, "position") {
            Some(p) => p.clone(),
            None => "after_line".to_owned(),
        };
        Ok(InsertTextRequest { path, line_number, text, position })
    }
}

/// How an insertion ended.
#[derive(Debug)]
pub enum InsertTextOutcome {
    /// The line number is zero or more than one past the last line.
    InvalidLineNumber { line_number: usize, total_lines: usize },
    /// The position is none of `before_line`, `after_line` and `at_end`.
    InvalidPosition { position: String },
    /// The text was inserted.
    Inserted { content: String, line_number: usize, total_lines: usize },
}

/// What an insertion owes for the lines `lines` of a text: a report of the
/// line number if it is out of range; else of the position if it is
/// unknown; else the text with the new line, ending in a line feed.
pub open spec fn is_insert_text_outcome(
    r: InsertTextOutcome,
    lines: Seq<Seq<char>>,
    line_number: usize,
    text: Seq<char>,
    position: Seq<char>,
) -> bool {
    if line_number == 0 || line_number > lines.len() + 1 {
        r matches InsertTextOutcome::InvalidLineNumber { line_number: n, total_lines } && n
            == line_number && total_lines == lines.len()
    } else {
        match position_of(position) {
            None => r matches InsertTextOutcome::InvalidPosition { position: p } && p@ == position,
            Some(pos) => {
                let at = crate::editing::lines::insert_index(
                    line_number as int,
                    pos,
                    lines.len() as int,
                );
                r matches InsertTextOutcome::Inserted { content, line_number: n, total_lines }
                    && content@ == with_final_newline(
                    join_lines(lines.take(at) + seq![text] + lines.skip(at)),
                ) && n == at + 1 && total_lines == lines.len() + 1
            },
        }
    }
}

impl InsertTextTool {
    /// Inserts the text of `request` into `content`.
    pub fn run(&self, request: &InsertTextRequest, content: &str) -> (r: InsertTextOutcome)
        requires
            lines_of(content@).len() < usize::MAX,
        ensures
            is_insert_text_outcome(
                r,
                lines_of(content@),
                request.line_number,
                request.text@,
                request.position@,
            ),
    {
        let position = parse_position(request.position.as_str());
        let pos = match position {
            Some(p) => p,
            None => crate::editing::lines::InsertPosition::AtEnd,
        };
        match insert_line(content, request.line_number, request.text.as_str(), pos) {
            Err(InsertError::InvalidLineNumber { line_number, total_lines }) => {
                InsertTextOutcome::InvalidLineNumber { line_number, total_lines }
            },
            Ok(out) => {
                if position.is_none() {
                    InsertTextOutcome::InvalidPosition { position: request.position.clone() }
                } else {
                    InsertTextOutcome::Inserted {
                        content: crate::text::ensure_final_newline(out.content.as_str()),
                        line_number: out.line_number,
                        total_lines: out.total_lines,
                    }
                }
            },
        }
    }
}

impl ReplaceTextTool {
    /// Replaces the text that `request` names in `content`.
    pub fn run(&self, request: &ReplaceTextRequest, content: &str) -> (r: ReplaceTextOutcome)
        ensures
            is_replace_text_outcome(
                r,
                content@,
                request.old_text@.len() as int,
                request.new_text@,
                request.occurrence,
                all_occurrences(content@, request.old_text@),
            ),
    {
        replace_text(
            content,
            request.old_text.as_str(),
            request.new_text.as_str(),
            request.occurrence,
        )
    }
}

impl DeleteTextTool {
    /// Deletes the text that `request` names from `content`.
    pub fn run(&self, request: &DeleteTextRequest, content: &str) -> (r: ReplaceTextOutcome)
        ensures
            is_replace_text_outcome(
                r,
                content@,
                request.text_to_delete@.len() as int,
                Seq::<char>::empty(),
                request.occurrence,
                all_occurrences(content@, request.text_to_delete@),
            ),
    {
        delete_text(content, request.text_to_delete.as_str(), request.occurrence)
    }
}

/// Tool for deleting a function definition by name.
pub struct DeleteFunctionTool {
    name: String,
}

impl DeleteFunctionTool {
    pub fn new() -> (r: Self)
        ensures
            r.spec_name() == "delete_function"@,
    {
        DeleteFunctionTool { name: "delete_function".to_owned() }
    }

    /// The name under which the tool is registered.
    pub closed spec fn spec_name(&self) -> Seq<char> {
        self.name@
    }

    pub fn name(&self) -> (r: &str)
        ensures
            r@ == self.spec_name(),
    {
        self.name.as_str()
    }

    pub fn description(&self) -> (r: &'static str)
        ensures
            r@ == "Delete a function definition by name. Currently supports Rust (.rs). For unsupported languages, suggests using delete_line or delete_text."@,
    {
        "Delete a function definition by name. Currently supports Rust (.rs). For unsupported languages, suggests using delete_line or delete_text."
    }

    pub fn signature(&self) -> (r: &'static str)
        ensures
            r@ == "delete_function(file_name: str, function_name: str)"@,
    {
        "delete_function(file_name: str, function_name: str)"
    }

    /// What each positional argument means.
    pub open spec fn fields() -> Seq<PositionalField> {
        seq![
            PositionalField { name: "file_name", kind: FieldKind::Text },
            PositionalField { name: "function_name", kind: FieldKind::Text },
        ]
    }

    fn positional_fields() -> (r: Vec<PositionalField>)
        ensures
            r@ == Self::fields(),
    {
        vec![
            PositionalField { name: "file_name", kind: FieldKind::Text },
            PositionalField { name: "function_name", kind: FieldKind::Text },
        ]
    }

    /// Reads the parameters of a request from its arguments: JSON text
    /// under the name `json`, else the named arguments, else at least
    /// two positional arguments.
    pub fn parse_params(&self, args: &ToolArgs) -> (r: Result<ParamSource, ToolError>)
        ensures
            match source_of(*args, Self::fields(), 2, "Insufficient parameters"@) {
                Ok(expected) => r matches Ok(src) && is_source(src, expected),
                Err(msg) => r matches Err(ToolError::InvalidArgs { message }) && message@ == msg,
            },
    {
        parse_source(args, &Self::positional_fields(), 2, "Insufficient parameters")
    }

    /// What validation owes for parameters: the file must be named, under
    /// `file_name` or `path`, and so must the function.
    pub open spec fn checked(flat: Seq<(Seq<char>, FlatValue)>) -> Result<(), Seq<char>> {
        if flat_get(flat, "file_name"@) is None && flat_get(flat, "path"@) is None {
            Err(missing_parameter("file_name"@))
        } else if flat_get(flat, "function_name"@) is None {
            Err(missing_parameter("function_name"@))
        } else {
            Ok(())
        }
    }

    /// Checks that the parameters name the file and the function.
    pub fn validate_params(&self, params: &Params) -> (r: Result<(), ToolError>)
        ensures
            is_validation(r, Self::checked(flat_view(params@))),
    {
        if !param_has(params, "file_name") && !param_has(params, "path") {
            let mut msg: Vec<char> = Vec::new();
            push_str(&mut msg, "Missing required parameter: ");
            push_str(&mut msg, "file_name");
            return Err(ToolError::InvalidArgs { message: from_chars(msg.as_slice()) });
        }
        if !param_has(params, "function_name") {
            let mut msg: Vec<char> = Vec::new();
            push_str(&mut msg, "Missing required parameter: ");
            push_str(&mut msg, "function_name");
            return Err(ToolError::InvalidArgs { message: from_chars(msg.as_slice()) });
        }
        Ok(())
    }

    /// What validation owes for the arguments of a request.
    pub open spec fn validation(args: ToolArgs) -> Result<(), Seq<char>> {
        match source_of(args, Self::fields(), 2, "Insufficient parameters"@) {
            Err(msg) => Err(msg),
            Ok(Ok(_)) => Ok(()),
            Ok(Err(flat)) => Self::checked(flat),
        }
    }

    /// Validates the arguments of a request. Parameters given as JSON text
    /// are checked once they are decoded.
    pub fn validate_args(&self, args: &ToolArgs) -> (r: Result<(), ToolError>)
        ensures
            is_validation(r, Self::validation(*args)),
    {
        match self.parse_params(args) {
            Err(e) => Err(e),
            Ok(ParamSource::Json(_)) => Ok(()),
            Ok(ParamSource::Ready(p)) => self.validate_params(&p),
        }
    }

    /// The language of the file at `path`, if the tool handles it: Rust
    /// for the extension `rs`.
    pub fn guess_language(&self, path: &str) -> (r: Option<&'static str>)
        ensures
            match r {
                Some(l) => extension(path@) == Some("rs"@) && l@ == "rust"@,
                None => extension(path@) != Some("rs"@),
            },
    {
        let rs = to_chars("rs");
        match path_extension(path) {
            Some(ext) => {
                if chars_eq(ext.as_slice(), rs.as_slice()) {
                    Some("rust")
                } else {
                    None
                }
            },
            None => None,
        }
    }

    /// What to try after an outcome that is no deletion; nothing after a
    /// deletion.
    pub fn suggestions(outcome: &DeleteFunctionOutcome) -> (r: Vec<&'static str>)
        ensures
            r@.map_values(|s: &'static str| s@) == match *outcome {
                DeleteFunctionOutcome::UnsupportedLanguage { .. } => unsupported_suggestions(),
                DeleteFunctionOutcome::NotFound => not_found_suggestions(),
                DeleteFunctionOutcome::Deleted { .. } => Seq::empty(),
            },
    {
        match outcome {
            DeleteFunctionOutcome::UnsupportedLanguage { .. } => {
                let r = vec![
                    "Use delete_line with the function's line range",
                    "Use delete_text to remove the function body manually",
                    "Consider adding support for this language in delete_function",
                ];
                assert(r@.map_values(|s: &'static str| s@) == unsupported_suggestions());
                r
            },
            DeleteFunctionOutcome::NotFound => {
                let r = vec![
                    "Check the exact function name (case-sensitive)",
                    "Ensure it's a function with a body (trait methods without bodies are ignored)",
                    "Use search_dir/search_file to locate the function",
                    "As a fallback, use delete_line with the function's line range",
                ];
                assert(r@.map_values(|s: &'static str| s@) == not_found_suggestions());
                r
            },
            DeleteFunctionOutcome::Deleted { .. } => {
                let r: Vec<&'static str> = Vec::new();
                assert(r@.map_values(|s: &'static str| s@) == Seq::<Seq<char>>::empty());
                r
            },
        }
    }

    /// Deletes the function that `request` names from `content`, the text
    /// of the file that the request names.
    pub fn run(&self, request: &DeleteFunctionRequest, content: &str) -> (r: DeleteFunctionOutcome)
        ensures
            is_delete_function_outcome(r, request.file_name@, request.function_name@, content@),
    {
        if self.guess_language(request.file_name.as_str()).is_none() {
            let language = match path_extension(request.file_name.as_str()) {
                Some(ext) => from_chars(ext.as_slice()),
                None => "unknown".to_owned(),
            };
            return DeleteFunctionOutcome::UnsupportedLanguage { language };
        }
        match delete_rust_function(content, request.function_name.as_str()) {
            None => DeleteFunctionOutcome::NotFound,
            Some(res) => DeleteFunctionOutcome::Deleted {
                content: crate::text::ensure_final_newline(res.content.as_str()),
                start_line: res.start_line,
                end_line: res.end_line,
                lines_deleted: res.end_line - res.start_line + 1,
            },
        }
    }
}

/// A request to delete a function.
#[derive(Debug)]
pub struct DeleteFunctionRequest {
    pub file_name: String,
    pub function_name: String,
}

/// The file that the parameters name: under `file_name`, or else under
/// `path`.
pub open spec fn named_file(flat: Seq<(Seq<char>, FlatValue)>) -> Option<Seq<char>> {
    match text_at(flat, "file_name"@) {
        Some(f) => Some(f),
        None => text_at(flat, "path"@),
    }
}

impl DeleteFunctionRequest {
    /// What reading a request from parameters owes.
    pub open spec fn reads(r: Result<Self, ToolError>, flat: Seq<(Seq<char>, FlatValue)>) -> bool {
        if named_file(flat) is None {
            r matches Err(ToolError::InvalidArgs { message }) && message@
                == "Invalid file_name parameter"@
        } else if text_at(flat, "function_name"@) is None {
            r matches Err(ToolError::InvalidArgs { message }) && message@
                == "Invalid function_name parameter"@
        } else {
            r matches Ok(q) && q.file_name@ == named_file(flat)->0 && q.function_name@ == text_at(
                flat,
                "function_name"@,
            )->0
        }
    }

    /// Reads a request from decoded parameters.
    pub fn from_params(params: &Params) -> (r: Result<Self, ToolError>)
        ensures
            Self::reads(r, flat_view(params@)),
    {
        let file_name = match param_str(params, "file_name") {
            Some(f) => f.clone(),
            None => match param_str(params, "path") {
                Some(p) => p.clone(),
                None => {
                    return Err(
                        ToolError::InvalidArgs {
                            message: "Invalid file_name parameter".to_owned(),
                        },
                    );
                },
            },
        };
        let function_name = match required_text(
            params,
            "function_name",
            "Invalid function_name parameter",
        ) {
            Ok(s) => s,
            Err(e) => {
                return Err(e);
            },
        };
        Ok(DeleteFunctionRequest { file_name, function_name })
    }
}

/// What to try where the function was not found.
pub open spec fn not_found_suggestions() -> Seq<Seq<char>> {
    seq![
        "Check the exact function name (case-sensitive)"@,
        "Ensure it's a function with a body (trait methods without bodies are ignored)"@,
        "Use search_dir/search_file to locate the function"@,
        "As a fallback, use delete_line with the function's line range"@,
    ]
}

/// What to try where the file is of a kind that the scanner does not
/// handle.
pub open spec fn unsupported_suggestions() -> Seq<Seq<char>> {
    seq![
        "Use delete_line with the function's line range"@,
        "Use delete_text to remove the function body manually"@,
        "Consider adding support for this language in delete_function"@,
    ]
}

/// How the deletion of a function ended.
#[derive(Debug)]
pub enum DeleteFunctionOutcome {
    /// The file is of a kind that the scanner does not handle.
    UnsupportedLanguage { language: String },
    /// No function of that name, with a body, was found.
    NotFound,
    /// The function was removed.
    Deleted { content: String, start_line: usize, end_line: usize, lines_deleted: usize },
}

/// What the deletion of the function `name` from `content` owes, for a
/// file called `file`.
pub open spec fn is_delete_function_outcome(
    r: DeleteFunctionOutcome,
    file: Seq<char>,
    name: Seq<char>,
    content: Seq<char>,
) -> bool {
    if extension(file) != Some("rs"@) {
        r matches DeleteFunctionOutcome::UnsupportedLanguage { language } && language@
            == match extension(file) {
            Some(e) => e,
            None => "unknown"@,
        }
    } else {
        match function_span(content, name) {
            None => r is NotFound,
            Some(span) => r matches DeleteFunctionOutcome::Deleted {
                content: rest,
                start_line,
                end_line,
                lines_deleted,
            } && start_line == span.0 && end_line == span.1 && lines_deleted == span.1 - span.0
                + 1 && rest@ == with_final_newline(
                join_lines(without_lines(lines_of(content), span.0, span.1)),
            ),
        }
    }
}

} // verus!
