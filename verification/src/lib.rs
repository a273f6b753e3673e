//! Tools for coding agents: text matching, normalization, structural
//! editing and the session bookkeeping around them.

pub mod assoc;
pub mod editing;
pub mod execution;
pub mod file_navigation;
pub mod linting;
pub mod llm;
pub mod params;
pub mod parse;
pub mod paths;
pub mod patterns;
pub mod search;
pub mod state;
pub mod text;
pub mod tool_core;
pub mod utils;

pub use editing::{
    CopyPathTool, CreateDirectoryTool, CreateFileTool, DeleteFunctionTool, DeleteLineTool,
    DeletePathTool, DeleteTextTool, InsertTextTool, MovePathTool, OverwriteFileTool,
    ReplaceTextTool,
};
pub use execution::RunCommandTool;
pub use file_navigation::{CreateTool, GotoTool, OpenTool, ScrollTool, WindowedFile};
pub use search::{FindFileTool, SearchDirTool, SearchFileTool};
pub use state::{StateTool, ToolState};
pub use tool_core::{ToolArgs, ToolError, ToolResult};
pub use utils::count_tokens::CountTokensTool;
pub use utils::{ClassifyTaskTool, FilemapTool, SubmitTool};
