//! Value types exchanged with tool-protocol peers.  The RPC transport
//! and its JSON encoding live outside this library.

use vstd::prelude::*;

verus! {

/// A chat tool exposed to a tool-protocol peer
#[derive(Debug, Clone)]
pub struct OllamaChatTool {
    /// The model name to use for generation
    pub model: String,
    /// The prompt to send to the model
    pub prompt: String,
    /// Optional system message to guide the model
    pub system: Option<String>,
}

/// The result a chat tool returns
#[derive(Debug, Clone)]
pub struct OllamaChatResult {
    /// The model's response
    pub response: String,
}

/// Parameters for listing tools
#[derive(Debug, Clone)]
pub struct ListToolsParams {
    pub cursor: Option<String>,
}

/// Result of calling a tool
#[derive(Debug, Clone)]
pub struct CallToolResult {
    pub content: Vec<TextContent>,
    pub is_error: bool,
}

/// Text content block
#[derive(Debug, Clone)]
pub struct TextContent {
    pub content_type: String,
    pub text: String,
}

} // verus!
