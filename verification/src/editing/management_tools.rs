//! Tools that manage files and directories: delete, move, copy, create.

use crate::params::{
    first_missing, flag_at, flat_view, is_source, is_validation, missing_parameter, param_bool,
    parse_source, require_keys, required_text, source_of, text_at, validate_source, validated,
    FieldKind, FlatValue, ParamSource, PositionalField,
};
use crate::paths::{file_name, list_contains, list_has, path_file_name};
use crate::search::filtering::ConfigurableFilter;
use crate::text::to_chars;
use crate::tool_core::{Params, ToolArgs, ToolError};
use vstd::prelude::*;

verus! {

/// Tool for deleting files or directories.
pub struct DeletePathTool {
    name: String,
}

impl DeletePathTool {
    pub fn new() -> (r: Self)
        ensures
            r.spec_name() == "delete_path"@,
    {
        DeletePathTool { name: "delete_path".to_owned() }
    }

    /// The name under which the tool is registered.
    pub closed spec fn spec_name(&self) -> Seq<char> {
        self.name@
    }

    pub fn name(&self) -> (r: &str)
        ensures
            r@ == self.spec_name(),
    {
        self.name.as_str()
    }

    pub fn description(&self) -> (r: &'static str)
        ensures
            r@ == "Delete a file or directory"@,
    {
        "Delete a file or directory"
    }

    pub fn signature(&self) -> (r: &'static str)
        ensures
            r@ == "delete_path(path: str, recursive?: bool)"@,
    {
        "delete_path(path: str, recursive?: bool)"
    }

    /// What each positional argument means.
    pub open spec fn fields() -> Seq<PositionalField> {
        seq![
            PositionalField { name: "path", kind: FieldKind::Text },
            PositionalField { name: "recursive", kind: FieldKind::OptionalFlag },
        ]
    }

    fn positional_fields() -> (r: Vec<PositionalField>)
        ensures
            r@ == Self::fields(),
    {
        vec![
            PositionalField { name: "path", kind: FieldKind::Text },
            PositionalField { name: "recursive", kind: FieldKind::OptionalFlag },
        ]
    }

    /// Reads the parameters of a request from its arguments: JSON text
    /// under the name `json`, else the named arguments, else at least
    /// one positional argument.
    pub fn parse_params(&self, args: &ToolArgs) -> (r: Result<ParamSource, ToolError>)
        ensures
            match source_of(*args, Self::fields(), 1, "Insufficient parameters"@) {
                Ok(expected) => r matches Ok(src) && is_source(src, expected),
                Err(msg) => r matches Err(ToolError::InvalidArgs { message }) && message@ == msg,
            },
    {
        parse_source(args, &Self::positional_fields(), 1, "Insufficient parameters")
    }

    /// The keys to which a request must give a value.
    pub open spec fn required() -> Seq<&'static str> {
        seq!["path"]
    }

    /// Checks that the parameters give a value to every required key.
    pub fn validate_params(&self, params: &Params) -> (r: Result<(), ToolError>)
        ensures
            match first_missing(flat_view(params@), Self::required()) {
                None => r is Ok,
                Some(k) => r matches Err(ToolError::InvalidArgs { message }) && message@
                    == missing_parameter(k),
            },
    {
        let required = vec!["path"];
        assert(required@ == Self::required());
        require_keys(params, required.as_slice())
    }

    /// Validates the arguments of a request. Parameters given as JSON text
    /// are checked once they are decoded.
    pub fn validate_args(&self, args: &ToolArgs) -> (r: Result<(), ToolError>)
        ensures
            is_validation(
                r,
                validated(
                    source_of(*args, Self::fields(), 1, "Insufficient parameters"@),
                    Self::required(),
                ),
            ),
    {
        let required = vec!["path"];
        assert(required@ == Self::required());
        validate_source(
            args,
            &Self::positional_fields(),
            1,
            "Insufficient parameters",
            required.as_slice(),
        )
    }
}

/// A request to delete a path.
#[derive(Debug)]
pub struct DeletePathRequest {
    pub path: String,
    pub recursive: bool,
}

impl DeletePathRequest {
    /// What reading a request from parameters owes: an error for the first
    /// required parameter that is missing or of the wrong kind, else the
    /// request with every field as the parameters give it.
    pub open spec fn reads(r: Result<Self, ToolError>, flat: Seq<(Seq<char>, FlatValue)>) -> bool {
        if text_at(flat, "path"@) is None {
            r matches Err(ToolError::InvalidArgs { message }) && message@ == "Invalid path parameter"@
        } else {
            r matches Ok(q) && q.path@ == text_at(flat, "path"@)->0
                && q.recursive == match flag_at(flat, "recursive"@) {
                    Some(b) => b,
                    None => false,
                }
        }
    }

    /// Reads a request from decoded parameters.
    pub fn from_params(params: &Params) -> (r: Result<Self, ToolError>)
        ensures
            Self::reads(r, flat_view(params@)),
    {
        let path = match required_text(params, "path", "Invalid path parameter") {
            Ok(s) => s,
            Err(e) => {
                return Err(e);
            },
        };
        let recursive = match param_bool(params, "recursive") {
            Some(b) => b,
            None => false,
        };
        Ok(DeletePathRequest { path, recursive })
    }
}

/// Tool for moving or renaming files or directories.
pub struct MovePathTool {
    name: String,
}

impl MovePathTool {
    pub fn new() -> (r: Self)
        ensures
            r.spec_name() == "move_path"@,
    {
        MovePathTool { name: "move_path".to_owned() }
    }

    /// The name under which the tool is registered.
    pub closed spec fn spec_name(&self) -> Seq<char> {
        self.name@
    }

    pub fn name(&self) -> (r: &str)
        ensures
            r@ == self.spec_name(),
    {
        self.name.as_str()
    }

    pub fn description(&self) -> (r: &'static str)
        ensures
            r@ == "Move or rename a file or directory"@,
    {
        "Move or rename a file or directory"
    }

    pub fn signature(&self) -> (r: &'static str)
        ensures
            r@ == "move_path(source: str, destination: str)"@,
    {
        "move_path(source: str, destination: str)"
    }

    /// What each positional argument means.
    pub open spec fn fields() -> Seq<PositionalField> {
        seq![
            PositionalField { name: "source", kind: FieldKind::Text },
            PositionalField { name: "destination", kind: FieldKind::Text },
        ]
    }

    fn positional_fields() -> (r: Vec<PositionalField>)
        ensures
            r@ == Self::fields(),
    {
        vec![
            PositionalField { name: "source", kind: FieldKind::Text },
            PositionalField { name: "destination", kind: FieldKind::Text },
        ]
    }

    /// Reads the parameters of a request from its arguments: JSON text
    /// under the name `json`, else the named arguments, else at least
    /// two positional arguments.
    pub fn parse_params(&self, args: &ToolArgs) -> (r: Result<ParamSource, ToolError>)
        ensures
            match source_of(*args, Self::fields(), 2, "Insufficient parameters"@) {
                Ok(expected) => r matches Ok(src) && is_source(src, expected),
                Err(msg) => r matches Err(ToolError::InvalidArgs { message }) && message@ == msg,
            },
    {
        parse_source(args, &Self::positional_fields(), 2, "Insufficient parameters")
    }

    /// The keys to which a request must give a value.
    pub open spec fn required() -> Seq<&'static str> {
        seq!["source", "destination"]
    }

    /// Checks that the parameters give a value to every required key.
    pub fn validate_params(&self, params: &Params) -> (r: Result<(), ToolError>)
        ensures
            match first_missing(flat_view(params@), Self::required()) {
                None => r is Ok,
                Some(k) => r matches Err(ToolError::InvalidArgs { message }) && message@
                    == missing_parameter(k),
            },
    {
        let required = vec!["source", "destination"];
        assert(required@ == Self::required());
        require_keys(params, required.as_slice())
    }

    /// Validates the arguments of a request. Parameters given as JSON text
    /// are checked once they are decoded.
    pub fn validate_args(&self, args: &ToolArgs) -> (r: Result<(), ToolError>)
        ensures
            is_validation(
                r,
                validated(
                    source_of(*args, Self::fields(), 2, "Insufficient parameters"@),
                    Self::required(),
                ),
            ),
    {
        let required = vec!["source", "destination"];
        assert(required@ == Self::required());
        validate_source(
            args,
            &Self::positional_fields(),
            2,
            "Insufficient parameters",
            required.as_slice(),
        )
    }
}

/// A request to move a path.
#[derive(Debug)]
pub struct MovePathRequest {
    pub source: String,
    pub destination: String,
}

impl MovePathRequest {
    /// What reading a request from parameters owes: an error for the first
    /// required parameter that is missing or of the wrong kind, else the
    /// request with every field as the parameters give it.
    pub open spec fn reads(r: Result<Self, ToolError>, flat: Seq<(Seq<char>, FlatValue)>) -> bool {
        if text_at(flat, "source"@) is None {
            r matches Err(ToolError::InvalidArgs { message }) && message@ == "Invalid source parameter"@
        } else if text_at(flat, "destination"@) is None {
            r matches Err(ToolError::InvalidArgs { message }) && message@ == "Invalid destination parameter"@
        } else {
            r matches Ok(q) && q.source@ == text_at(flat, "source"@)->0
                && q.destination@ == text_at(flat, "destination"@)->0
        }
    }

    /// Reads a request from decoded parameters.
    pub fn from_params(params: &Params) -> (r: Result<Self, ToolError>)
        ensures
            Self::reads(r, flat_view(params@)),
    {
        let source = match required_text(params, "source", "Invalid source parameter") {
            Ok(s) => s,
            Err(e) => {
                return Err(e);
            },
        };
        let destination = match required_text(params, "destination", "Invalid destination parameter") {
            Ok(s) => s,
            Err(e) => {
                return Err(e);
            },
        };
        Ok(MovePathRequest { source, destination })
    }
}

/// Tool for copying files or directories.
pub struct CopyPathTool {
    name: String,
}

impl CopyPathTool {
    pub fn new() -> (r: Self)
        ensures
            r.spec_name() == "copy_path"@,
    {
        CopyPathTool { name: "copy_path".to_owned() }
    }

    /// The name under which the tool is registered.
    pub closed spec fn spec_name(&self) -> Seq<char> {
        self.name@
    }

    pub fn name(&self) -> (r: &str)
        ensures
            r@ == self.spec_name(),
    {
        self.name.as_str()
    }

    pub fn description(&self) -> (r: &'static str)
        ensures
            r@ == "Copy a file or directory"@,
    {
        "Copy a file or directory"
    }

    pub fn signature(&self) -> (r: &'static str)
        ensures
            r@ == "copy_path(source: str, destination: str, recursive?: bool)"@,
    {
        "copy_path(source: str, destination: str, recursive?: bool)"
    }

    /// What each positional argument means.
    pub open spec fn fields() -> Seq<PositionalField> {
        seq![
            PositionalField { name: "source", kind: FieldKind::Text },
            PositionalField { name: "destination", kind: FieldKind::Text },
            PositionalField { name: "recursive", kind: FieldKind::OptionalFlag },
        ]
    }

    fn positional_fields() -> (r: Vec<PositionalField>)
        ensures
            r@ == Self::fields(),
    {
        vec![
            PositionalField { name: "source", kind: FieldKind::Text },
            PositionalField { name: "destination", kind: FieldKind::Text },
            PositionalField { name: "recursive", kind: FieldKind::OptionalFlag },
        ]
    }

    /// Reads the parameters of a request from its arguments: JSON text
    /// under the name `json`, else the named arguments, else at least
    /// two positional arguments.
    pub fn parse_params(&self, args: &ToolArgs) -> (r: Result<ParamSource, ToolError>)
        ensures
            match source_of(*args, Self::fields(), 2, "Insufficient parameters"@) {
                Ok(expected) => r matches Ok(src) && is_source(src, expected),
                Err(msg) => r matches Err(ToolError::InvalidArgs { message }) && message@ == msg,
            },
    {
        parse_source(args, &Self::positional_fields(), 2, "Insufficient parameters")
    }

    /// The keys to which a request must give a value.
    pub open spec fn required() -> Seq<&'static str> {
        seq!["source", "destination"]
    }

    /// Checks that the parameters give a value to every required key.
    pub fn validate_params(&self, params: &Params) -> (r: Result<(), ToolError>)
        ensures
            match first_missing(flat_view(params@), Self::required()) {
                None => r is Ok,
                Some(k) => r matches Err(ToolError::InvalidArgs { message }) && message@
                    == missing_parameter(k),
            },
    {
        let required = vec!["source", "destination"];
        assert(required@ == Self::required());
        require_keys(params, required.as_slice())
    }

    /// Validates the arguments of a request. Parameters given as JSON text
    /// are checked once they are decoded.
    pub fn validate_args(&self, args: &ToolArgs) -> (r: Result<(), ToolError>)
        ensures
            is_validation(
                r,
                validated(
                    source_of(*args, Self::fields(), 2, "Insufficient parameters"@),
                    Self::required(),
                ),
            ),
    {
        let required = vec!["source", "destination"];
        assert(required@ == Self::required());
        validate_source(
            args,
            &Self::positional_fields(),
            2,
            "Insufficient parameters",
            required.as_slice(),
        )
    }
}

/// A request to copy a path.
#[derive(Debug)]
pub struct CopyPathRequest {
    pub source: String,
    pub destination: String,
    pub recursive: bool,
}

impl CopyPathRequest {
    /// What reading a request from parameters owes: an error for the first
    /// required parameter that is missing or of the wrong kind, else the
    /// request with every field as the parameters give it.
    pub open spec fn reads(r: Result<Self, ToolError>, flat: Seq<(Seq<char>, FlatValue)>) -> bool {
        if text_at(flat, "source"@) is None {
            r matches Err(ToolError::InvalidArgs { message }) && message@ == "Invalid source parameter"@
        } else if text_at(flat, "destination"@) is None {
            r matches Err(ToolError::InvalidArgs { message }) && message@ == "Invalid destination parameter"@
        } else {
            r matches Ok(q) && q.source@ == text_at(flat, "source"@)->0
                && q.destination@ == text_at(flat, "destination"@)->0
                && q.recursive == match flag_at(flat, "recursive"@) {
                    Some(b) => b,
                    None => true,
                }
        }
    }

    /// Reads a request from decoded parameters.
    pub fn from_params(params: &Params) -> (r: Result<Self, ToolError>)
        ensures
            Self::reads(r, flat_view(params@)),
    {
        let source = match required_text(params, "source", "Invalid source parameter") {
            Ok(s) => s,
            Err(e) => {
                return Err(e);
            },
        };
        let destination = match required_text(params, "destination", "Invalid destination parameter") {
            Ok(s) => s,
            Err(e) => {
                return Err(e);
            },
        };
        let recursive = match param_bool(params, "recursive") {
            Some(b) => b,
            None => true,
        };
        Ok(CopyPathRequest { source, destination, recursive })
    }
}

/// Tool for creating directories.
pub struct CreateDirectoryTool {
    name: String,
}

impl CreateDirectoryTool {
    pub fn new() -> (r: Self)
        ensures
            r.spec_name() == "create_directory"@,
    {
        CreateDirectoryTool { name: "create_directory".to_owned() }
    }

    /// The name under which the tool is registered.
    pub closed spec fn spec_name(&self) -> Seq<char> {
        self.name@
    }

    pub fn name(&self) -> (r: &str)
        ensures
            r@ == self.spec_name(),
    {
        self.name.as_str()
    }

    pub fn description(&self) -> (r: &'static str)
        ensures
            r@ == "Create a new directory (and parent directories if needed)"@,
    {
        "Create a new directory (and parent directories if needed)"
    }

    pub fn signature(&self) -> (r: &'static str)
        ensures
            r@ == "create_directory(path: str)"@,
    {
        "create_directory(path: str)"
    }

    /// What each positional argument means.
    pub open spec fn fields() -> Seq<PositionalField> {
        seq![
            PositionalField { name: "path", kind: FieldKind::Text },
        ]
    }

    fn positional_fields() -> (r: Vec<PositionalField>)
        ensures
            r@ == Self::fields(),
    {
        vec![
            PositionalField { name: "path", kind: FieldKind::Text },
        ]
    }

    /// Reads the parameters of a request from its arguments: JSON text
    /// under the name `json`, else the named arguments, else at least
    /// one positional argument.
    pub fn parse_params(&self, args: &ToolArgs) -> (r: Result<ParamSource, ToolError>)
        ensures
            match source_of(*args, Self::fields(), 1, "Insufficient parameters"@) {
                Ok(expected) => r matches Ok(src) && is_source(src, expected),
                Err(msg) => r matches Err(ToolError::InvalidArgs { message }) && message@ == msg,
            },
    {
        parse_source(args, &Self::positional_fields(), 1, "Insufficient parameters")
    }

    /// The keys to which a request must give a value.
    pub open spec fn required() -> Seq<&'static str> {
        seq!["path"]
    }

    /// Checks that the parameters give a value to every required key.
    pub fn validate_params(&self, params: &Params) -> (r: Result<(), ToolError>)
        ensures
            match first_missing(flat_view(params@), Self::required()) {
                None => r is Ok,
                Some(k) => r matches Err(ToolError::InvalidArgs { message }) && message@
                    == missing_parameter(k),
            },
    {
        let required = vec!["path"];
        assert(required@ == Self::required());
        require_keys(params, required.as_slice())
    }

    /// Validates the arguments of a request. Parameters given as JSON text
    /// are checked once they are decoded.
    pub fn validate_args(&self, args: &ToolArgs) -> (r: Result<(), ToolError>)
        ensures
            is_validation(
                r,
                validated(
                    source_of(*args, Self::fields(), 1, "Insufficient parameters"@),
                    Self::required(),
                ),
            ),
    {
        let required = vec!["path"];
        assert(required@ == Self::required());
        validate_source(
            args,
            &Self::positional_fields(),
            1,
            "Insufficient parameters",
            required.as_slice(),
        )
    }
}

/// A request to create a directory.
#[derive(Debug)]
pub struct CreateDirectoryRequest {
    pub path: String,
}

impl CreateDirectoryRequest {
    /// What reading a request from parameters owes: an error for the first
    /// required parameter that is missing or of the wrong kind, else the
    /// request with every field as the parameters give it.
    pub open spec fn reads(r: Result<Self, ToolError>, flat: Seq<(Seq<char>, FlatValue)>) -> bool {
        if text_at(flat, "path"@) is None {
            r matches Err(ToolError::InvalidArgs { message }) && message@ == "Invalid path parameter"@
        } else {
            r matches Ok(q) && q.path@ == text_at(flat, "path"@)->0
        }
    }

    /// Reads a request from decoded parameters.
    pub fn from_params(params: &Params) -> (r: Result<Self, ToolError>)
        ensures
            Self::reads(r, flat_view(params@)),
    {
        let path = match required_text(params, "path", "Invalid path parameter") {
            Ok(s) => s,
            Err(e) => {
                return Err(e);
            },
        };
        Ok(CreateDirectoryRequest { path })
    }
}

/// What to do with a path that is to be deleted.
#[derive(Debug, Clone, Copy, PartialEq, Eq, Structural)]
pub enum DeleteAction {
    /// The path is an important directory: leave it.
    Refuse,
    /// Remove the file.
    RemoveFile,
    /// Remove the directory and all it holds.
    RemoveTree,
    /// Remove the directory, which must be empty.
    RemoveEmptyDirectory,
    /// The path is neither a file nor a directory: nothing to remove.
    Nothing,
}

/// Whether a directory at `path` is protected from deletion: one named
/// `src`, or named like a directory that searches leave out.
pub open spec fn is_protected(filter: ConfigurableFilter, path: Seq<char>) -> bool {
    let name = match file_name(path) {
        Some(n) => n,
        None => Seq::empty(),
    };
    name == "src"@ || match filter.config.exclude_dirs {
        Some(dirs) => list_has(dirs@, name),
        None => false,
    }
}

/// The action for deleting a path of the given kind.
pub open spec fn delete_action(is_dir: bool, is_file: bool, recursive: bool, protected: bool) -> DeleteAction {
    if is_dir && protected {
        DeleteAction::Refuse
    } else if is_file {
        DeleteAction::RemoveFile
    } else if is_dir {
        if recursive {
            DeleteAction::RemoveTree
        } else {
            DeleteAction::RemoveEmptyDirectory
        }
    } else {
        DeleteAction::Nothing
    }
}

impl DeletePathTool {
    /// Decides how the path at `path` is deleted, given what it is.
    pub fn plan(
        &self,
        path: &str,
        is_dir: bool,
        is_file: bool,
        recursive: bool,
        filter: &ConfigurableFilter,
    ) -> (r: DeleteAction)
        ensures
            r == delete_action(is_dir, is_file, recursive, is_protected(*filter, path@)),
    {
        let name: Vec<char> = match path_file_name(path) {
            Some(n) => n,
            None => Vec::new(),
        };
        let src = to_chars("src");
        let mut protected = crate::text::chars_eq(name.as_slice(), src.as_slice());
        if !protected {
            match &filter.config.exclude_dirs {
                Some(dirs) => {
                    if list_contains(dirs, name.as_slice()) {
                        protected = true;
                    }
                },
                None => {},
            }
        }
        if is_dir && protected {
            DeleteAction::Refuse
        } else if is_file {
            DeleteAction::RemoveFile
        } else if is_dir {
            if recursive {
                DeleteAction::RemoveTree
            } else {
                DeleteAction::RemoveEmptyDirectory
            }
        } else {
            DeleteAction::Nothing
        }
    }
}

/// What to do with a path that is to be copied.
#[derive(Debug, Clone, Copy, PartialEq, Eq, Structural)]
pub enum CopyAction {
    /// Copy the file.
    CopyFile,
    /// Copy the directory and all it holds.
    CopyTree,
    /// A directory is not copied unless `recursive` is set.
    RefuseDirectory,
    /// The path is neither a file nor a directory: nothing to copy.
    Nothing,
}

/// The action for copying a path of the given kind.
pub open spec fn copy_action(is_file: bool, is_dir: bool, recursive: bool) -> CopyAction {
    if is_file {
        CopyAction::CopyFile
    } else if is_dir {
        if recursive {
            CopyAction::CopyTree
        } else {
            CopyAction::RefuseDirectory
        }
    } else {
        CopyAction::Nothing
    }
}

impl CopyPathTool {
    /// Decides how a path is copied, given what it is.
    pub fn plan(&self, is_file: bool, is_dir: bool, recursive: bool) -> (r: CopyAction)
        ensures
            r == copy_action(is_file, is_dir, recursive),
    {
        if is_file {
            CopyAction::CopyFile
        } else if is_dir {
            if recursive {
                CopyAction::CopyTree
            } else {
                CopyAction::RefuseDirectory
            }
        } else {
            CopyAction::Nothing
        }
    }
}

} // verus!
