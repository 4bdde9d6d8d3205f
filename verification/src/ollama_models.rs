//! Data models for requests to and responses from the model-serving API.
//! The HTTP transport lives outside this library.

use vstd::prelude::*;

verus! {

/// A request to the model-serving API
#[derive(Debug, Clone)]
pub struct OllamaRequest {
    /// The model to use for generation
    pub model: String,
    /// The prompt to send to the model
    pub prompt: String,
    /// Optional system message to guide the model
    pub system: Option<String>,
    /// Optional context from previous interactions
    pub context: Option<Vec<i32>>,
    /// Whether to stream the response
    pub stream: Option<bool>,
}

impl OllamaRequest {
    /// Create a new request with default settings: streaming, with no
    /// system message and no context.
    pub fn new(model: String, prompt: String) -> (request: OllamaRequest)
        ensures
            request.model == model,
            request.prompt == prompt,
            request.system is None,
            request.context is None,
            request.stream == Some(true),
    {
        OllamaRequest { model, prompt, system: None, context: None, stream: Some(true) }
    }

    /// Create a new request with a system message
    pub fn with_system(model: String, prompt: String, system: String) -> (request: OllamaRequest)
        ensures
            request.model == model,
            request.prompt == prompt,
            request.system == Some(system),
            request.context is None,
            request.stream == Some(true),
    {
        OllamaRequest { model, prompt, system: Some(system), context: None, stream: Some(true) }
    }

    /// Create a new request with context
    pub fn with_context(model: String, prompt: String, context: Vec<i32>) -> (request:
        OllamaRequest)
        ensures
            request.model == model,
            request.prompt == prompt,
            request.system is None,
            request.context == Some(context),
            request.stream == Some(true),
    {
        OllamaRequest { model, prompt, system: None, context: Some(context), stream: Some(true) }
    }
}

/// A response from the model-serving API
#[derive(Debug, Clone)]
pub struct OllamaResponse {
    /// The model used for generation
    pub model: String,
    /// The time the response was created
    pub created_at: String,
    /// The response content
    pub response: String,
    /// Whether this is the final response
    pub done: bool,
    /// Optional context for continuing the conversation
    pub context: Option<Vec<i32>>,
}

} // verus!
