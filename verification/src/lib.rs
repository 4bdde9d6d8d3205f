//! A command-execution engine for a terminal application.
//!
//! One command invocation is tracked by a [`CommandBlock`], which moves
//! through an explicit lifecycle state machine while a PTY-backed executor
//! streams [`ExecutionEvent`]s describing its progress.  Around the engine
//! sit the supporting value types of the application: tool descriptions and
//! their security policy, widget state, and request models.

pub mod command_block;
pub mod command_palette;
pub mod config;
pub mod confirmation_modal;
pub mod driver;
pub mod events;
pub mod filesystem_tools;
pub mod history_stats;
pub mod mcp_types;
pub mod network_tools;
pub mod ollama_models;
pub mod process_tools;
pub mod output;
pub mod pty_executor;
pub mod security;
pub mod text_util;
pub mod tools;
pub mod ui_state;

pub use command_block::BlockState;
pub use command_block::CommandBlock;
pub use events::ExecutionEvent;
pub use pty_executor::PtyExecutor;
