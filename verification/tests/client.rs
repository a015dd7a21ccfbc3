use argus::llm::{extract_content, ChatError, LLMClient, Provider};
use serde_json::Value;

fn parse_doc(text: &str) -> Value {
    serde_json::from_str::<Value>(text).unwrap()
}

#[test]
fn provider_name_is_matched_in_any_case() {
    assert_eq!(LLMClient::new("ollama".to_string(), None, None).provider(), Provider::Ollama);
    assert_eq!(LLMClient::new("OLLAMA".to_string(), None, None).provider(), Provider::Ollama);
    assert_eq!(LLMClient::new("Ollama".to_string(), None, None).provider(), Provider::Ollama);
    assert_eq!(LLMClient::new("openai".to_string(), None, None).provider(), Provider::OpenAI);
    assert_eq!(LLMClient::new("anything".to_string(), None, None).provider(), Provider::OpenAI);
    assert_eq!(LLMClient::new("".to_string(), None, None).provider(), Provider::OpenAI);
}

#[test]
fn from_name_expects_lower_case() {
    assert_eq!(Provider::from_name("ollama"), Provider::Ollama);
    assert_eq!(Provider::from_name("Ollama"), Provider::OpenAI);
}

#[test]
fn hosted_defaults() {
    let c = LLMClient::new("openai".to_string(), None, Some("key-1".to_string()));
    assert_eq!(c.model(), "gpt-4o");
    assert_eq!(c.api_key(), "key-1");
    assert_eq!(c.base_url(), "https://api.openai.com/v1/chat/completions");
    let d = LLMClient::new("openai".to_string(), None, None);
    assert_eq!(d.api_key(), "");
}

#[test]
fn local_defaults() {
    let c = LLMClient::new("ollama".to_string(), None, Some("key-1".to_string()));
    assert_eq!(c.model(), "llama3");
    assert_eq!(c.api_key(), "ollama");
    assert_eq!(c.base_url(), "http://localhost:11434/api/chat");
}

#[test]
fn model_override_wins() {
    let c = LLMClient::new("ollama".to_string(), Some("mistral".to_string()), None);
    assert_eq!(c.model(), "mistral");
    let d = LLMClient::configure(Provider::OpenAI, Some("gpt-4o-mini".to_string()), None);
    assert_eq!(d.model(), "gpt-4o-mini");
}

#[test]
fn hosted_request_shape() {
    let c = LLMClient::new("openai".to_string(), None, Some("abc".to_string()));
    let r = c.request("sys \"prompt\"", "user\ntext");
    assert_eq!(r.url, "https://api.openai.com/v1/chat/completions");
    assert_eq!(r.authorization, Some("Bearer abc".to_string()));
    let expected = parse_doc(
        "{\"model\":\"gpt-4o\",\"messages\":[{\"role\":\"system\",\"content\":\"sys \\\"prompt\\\"\"},{\"role\":\"user\",\"content\":\"user\\ntext\"}],\"response_format\":{\"type\":\"json_object\"}}",
    );
    assert_eq!(r.body, expected);
}

#[test]
fn local_request_shape() {
    let c = LLMClient::new("ollama".to_string(), Some("phi".to_string()), None);
    let r = c.request("s", "u");
    assert_eq!(r.url, "http://localhost:11434/api/chat");
    assert_eq!(r.authorization, None);
    let expected = parse_doc(
        "{\"model\":\"phi\",\"messages\":[{\"role\":\"system\",\"content\":\"s\"},{\"role\":\"user\",\"content\":\"u\"}],\"format\":\"json\",\"stream\":false}",
    );
    assert_eq!(r.body, expected);
}

#[test]
fn hosted_completion_is_taken_from_first_choice() {
    let c = LLMClient::new("openai".to_string(), None, None);
    let body = "{\"choices\":[{\"message\":{\"role\":\"assistant\",\"content\":\"{\\\"action\\\":\\\"finish\\\"}\"}},{\"message\":{\"content\":\"second\"}}]}";
    assert_eq!(c.completion(true, body), Ok("{\"action\":\"finish\"}".to_string()));
}

#[test]
fn local_completion_is_taken_from_message() {
    let c = LLMClient::new("ollama".to_string(), None, None);
    let body = "{\"message\":{\"role\":\"assistant\",\"content\":\"hello\"},\"done\":true}";
    assert_eq!(c.completion(true, body), Ok("hello".to_string()));
}

#[test]
fn missing_content_is_an_empty_completion() {
    let c = LLMClient::new("openai".to_string(), None, None);
    assert_eq!(c.completion(true, "{}"), Ok(String::new()));
    assert_eq!(c.completion(true, "{\"choices\":[]}"), Ok(String::new()));
    assert_eq!(c.completion(true, "{\"choices\":[{\"message\":{}}]}"), Ok(String::new()));
    assert_eq!(
        c.completion(true, "{\"choices\":[{\"message\":{\"content\":null}}]}"),
        Ok(String::new())
    );
    assert_eq!(c.completion(true, "{\"message\":{\"content\":\"local shape\"}}"), Ok(String::new()));
    let empty = c.completion(true, "{\"error\":\"quota\"}").unwrap();
    assert_eq!(
        argus::action::parse_action(&empty),
        Err(argus::action::ParseError::Syntax {
            message: "EOF while parsing a value at line 1 column 0".to_string(),
        })
    );
}

#[test]
fn failure_status_carries_the_body() {
    let c = LLMClient::new("openai".to_string(), None, None);
    assert_eq!(
        c.completion(false, "{\"error\":\"unauthorized\"}"),
        Err(ChatError::Status { body: "{\"error\":\"unauthorized\"}".to_string() })
    );
    assert_eq!(c.completion(false, "plain"), Err(ChatError::Status { body: "plain".to_string() }));
}

#[test]
fn malformed_body_is_an_error() {
    let c = LLMClient::new("ollama".to_string(), None, None);
    let message = serde_json::from_str::<Value>("<html>").unwrap_err().to_string();
    assert_eq!(c.completion(true, "<html>"), Err(ChatError::Malformed { message }));
    assert_eq!(
        c.completion(true, ""),
        Err(ChatError::Malformed {
            message: "EOF while parsing a value at line 1 column 0".to_string(),
        })
    );
}

#[test]
fn extract_content_follows_the_provider_path() {
    let doc = parse_doc("{\"choices\":[{\"message\":{\"content\":\"a\"}}],\"message\":{\"content\":\"b\"}}");
    assert_eq!(extract_content(Provider::OpenAI, &doc), "a");
    assert_eq!(extract_content(Provider::Ollama, &doc), "b");
    let odd = parse_doc("{\"choices\":{\"0\":{\"message\":{\"content\":\"a\"}}},\"message\":[\"content\"]}");
    assert_eq!(extract_content(Provider::OpenAI, &odd), "");
    assert_eq!(extract_content(Provider::Ollama, &odd), "");
}
