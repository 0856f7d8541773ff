use meeting_summarizer::LlmError;
use meeting_summarizer::LlmService;

fn ollama_body(response: &str) -> String {
    let escaped = response
        .replace('\\', "\\\\")
        .replace('"', "\\\"")
        .replace('\n', "\\n");
    format!(
        "{{\"model\":\"llama3.1\",\"created_at\":\"t\",\"response\":\"{}\",\"done\":true,\
         \"done_reason\":\"stop\",\"context\":[1,2],\"total_duration\":5,\"load_duration\":1,\
         \"prompt_eval_count\":2,\"prompt_eval_duration\":3,\"eval_count\":4,\"eval_duration\":5}}",
        escaped
    )
}

#[test]
fn test_llm_service_creation() {
    let service = LlmService::new(
        "http://localhost:11434".to_string(),
        "llama3.1".to_string(),
    );
    assert_eq!(service.base_url, "http://localhost:11434");
    assert_eq!(service.model, "llama3.1");
}

#[test]
fn test_build_request_merges_prompts() {
    let service = LlmService::new("http://h".to_string(), "m".to_string());
    let req = service.build_request("sys", "user", None);
    assert_eq!(req.url, "http://h/api/generate");
    assert_eq!(
        req.body,
        "{\"model\":\"m\",\"prompt\":\"System: sys\\nUser: user\",\"stream\":false,\"num_ctx\":8096}"
    );
    assert!(req.schema.is_none());
}

#[test]
fn test_build_request_body_attaches_format() {
    let service = LlmService::new("http://h".to_string(), "m".to_string());
    let body = service.build_request_body("p", Some("{\"type\":\"object\"}"));
    assert_eq!(
        body,
        "{\"model\":\"m\",\"prompt\":\"p\",\"stream\":false,\"num_ctx\":8096,\
         \"format\":{\"type\":\"object\"}}"
    );
}

#[test]
fn test_interpret_response_extracts_generated_text() {
    let body = ollama_body("hello there");
    let r = LlmService::interpret_response(Ok(body));
    assert_eq!(r.unwrap(), "hello there");
}

#[test]
fn test_interpret_response_transport_failure_is_network_error() {
    let r = LlmService::interpret_response(Err("connection refused".to_string()));
    match r {
        Err(LlmError::NetworkError(m)) => {
            assert_eq!(m, "Failed to send request to Ollama: connection refused");
        }
        _ => panic!("expected a network error"),
    }
}

#[test]
fn test_interpret_response_missing_field_is_parse_error() {
    // No `response` field at all.
    let body = "{\"model\":\"m\"}".to_string();
    match LlmService::interpret_response(Ok(body)) {
        Err(LlmError::ParseError(_)) => {}
        _ => panic!("expected a parse error"),
    }
}

#[test]
fn test_interpret_response_malformed_body_is_parse_error() {
    match LlmService::interpret_response(Ok("not json at all".to_string())) {
        Err(LlmError::ParseError(_)) => {}
        _ => panic!("expected a parse error"),
    }
}

#[test]
fn test_interpret_response_decodes_string_escapes() {
    // The generated text arrives JSON-escaped; it must be decoded, not
    // handed back verbatim.
    let body = ollama_body("line one\nline two \"quoted\" \\ backslash");
    let r = LlmService::interpret_response(Ok(body)).unwrap();
    assert_eq!(r, "line one\nline two \"quoted\" \\ backslash");
}

#[test]
fn test_interpret_response_decodes_unicode_escapes() {
    let body = "{\"model\":\"m\",\"created_at\":\"t\",\"response\":\"\\u0041\\u00e4\",\
                \"done\":true,\"done_reason\":\"stop\",\"context\":[],\"total_duration\":1,\
                \"load_duration\":1,\"prompt_eval_count\":1,\"prompt_eval_duration\":1,\
                \"eval_count\":1,\"eval_duration\":1}";
    let r = LlmService::interpret_response(Ok(body.to_string())).unwrap();
    assert_eq!(r, "Aä");
}

#[test]
fn test_error_messages_carry_their_class() {
    assert_eq!(
        LlmError::NetworkError("x".to_string()).to_message(),
        "Network error: x"
    );
    assert_eq!(LlmError::ParseError("x".to_string()).to_message(), "Parse error: x");
    assert_eq!(LlmError::FileError("x".to_string()).to_message(), "File error: x");
    assert_eq!(
        LlmError::ConfigError("x".to_string()).to_message(),
        "Configuration error: x"
    );
    assert_eq!(
        LlmError::TimeoutError("x".to_string()).to_message(),
        "Timeout error: x"
    );
    assert_eq!(
        LlmError::SerializationError("x".to_string()).to_message(),
        "Serialization error: x"
    );
}

#[test]
fn test_duplicate_keys_last_occurrence_wins() {
    // With a duplicated field, the last occurrence is the one read, as in
    // the JSON readers this layer stands in for.
    let body = "{\"model\":\"m\",\"created_at\":\"t\",\"response\":\"first\",\
                \"done\":true,\"done_reason\":\"stop\",\"context\":[],\"total_duration\":1,\
                \"load_duration\":1,\"prompt_eval_count\":1,\"prompt_eval_duration\":1,\
                \"eval_count\":1,\"eval_duration\":1,\"response\":\"second\"}";
    let r = LlmService::interpret_response(Ok(body.to_string())).unwrap();
    assert_eq!(r, "second");
}
