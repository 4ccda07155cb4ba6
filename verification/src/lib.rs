//! Mimi: the decision logic of a coding-agent harness, verified with Verus.

pub mod agent_loop;
pub mod approval;
pub mod command_line_parser;
pub mod context;
pub mod events;
pub mod interactive;
pub mod json;
pub mod json_text;
pub mod models;
pub mod parser;
pub mod response;
pub mod runtime;
pub mod text;
pub mod tools;
