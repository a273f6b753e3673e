//! Helpers for driving the tools from the function calls of a language
//! model.

pub mod assistant;
pub mod converter;
pub mod executor;
pub mod result_handler;

pub use assistant::generate_assistant_content;
pub use converter::json_to_tool_args;
pub use executor::ToolExecutionResult;
pub use result_handler::handle_large_result;
