//! The logic of a command-line assistant that turns natural language into
//! chat replies and shell commands: the stream of a response is collected,
//! tool calls are found in it and answered, and a generated shell command is
//! confirmed, explained or dropped. Every function is verified against the
//! contract that it states.

pub mod aggregator;
pub mod chat;
pub mod cli;
pub mod commands;
pub mod config;
pub mod display;
pub mod error;
pub mod extractor;
pub mod input;
pub mod json;
pub mod mcp;
pub mod providers;
pub mod shell;
pub mod strings;
pub mod system;
pub mod utils;
