//! Linting of edited files.

use crate::tool_core::ToolError;
use vstd::prelude::*;

verus! {

/// A linter for the files of some kinds.
pub trait Linter {
    /// The linter's name.
    fn name(&self) -> &str;

    /// The complaints about `content`, a file of kind `file_type`.
    fn lint(&self, content: &str, file_type: &str) -> Result<Vec<String>, ToolError>;

    /// Whether the linter handles files of kind `file_type`.
    fn supports_file_type(&self, file_type: &str) -> bool;
}

} // verus!
