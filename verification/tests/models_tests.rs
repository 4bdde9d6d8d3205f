use ai_terminal::config::Config;
use ai_terminal::config::OllamaConfig;
use ai_terminal::mcp_types::CallToolResult;
use ai_terminal::mcp_types::TextContent;
use ai_terminal::ollama_models::OllamaRequest;

#[test]
fn test_ollama_request_with_system_message() {
    let request = OllamaRequest::with_system(
        "llama3".to_string(),
        "Hello, world!".to_string(),
        "You are a helpful assistant.".to_string(),
    );

    assert_eq!(request.model, "llama3");
    assert_eq!(request.prompt, "Hello, world!");
    assert_eq!(request.system, Some("You are a helpful assistant.".to_string()));
}

#[test]
fn test_ollama_request_new_defaults() {
    let request = OllamaRequest::new("llama3".to_string(), "hi".to_string());
    assert_eq!(request.model, "llama3");
    assert_eq!(request.prompt, "hi");
    assert_eq!(request.system, None);
    assert_eq!(request.context, None);
    assert_eq!(request.stream, Some(true));
}

#[test]
fn test_ollama_request_with_context() {
    let request = OllamaRequest::with_context(
        "llama3".to_string(),
        "hi".to_string(),
        vec![1, 2, 3],
    );
    assert_eq!(request.context, Some(vec![1, 2, 3]));
    assert_eq!(request.system, None);
    assert_eq!(request.stream, Some(true));
}

#[test]
fn test_get_custom_prompt() {
    let config = Config {
        ollama: OllamaConfig { model: "test-model".to_string(), system_prompt: None },
        custom_prompts: vec![
            ("prompt1".to_string(), "First test prompt".to_string()),
            ("prompt2".to_string(), "Second test prompt".to_string()),
        ],
    };

    assert_eq!(config.get_custom_prompt("prompt1"), Some(&"First test prompt".to_string()));
    assert_eq!(config.get_custom_prompt("prompt2"), Some(&"Second test prompt".to_string()));
    assert_eq!(config.get_custom_prompt("nonexistent"), None);
}

#[test]
fn test_call_tool_result_holds_content() {
    let result = CallToolResult {
        content: vec![TextContent { content_type: "text".to_string(), text: "ok".to_string() }],
        is_error: false,
    };
    assert_eq!(result.content.len(), 1);
    assert_eq!(result.content[0].text, "ok");
    assert!(!result.is_error);
}
