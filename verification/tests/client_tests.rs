use chat_client::encode::{build_request_body, ChatMessage, GenerationParams};
use chat_client::error::ChatError;
use chat_client::prompt::{compose_system_prompt, extract_prompt_parts};
use chat_client::request::{build_analysis_request, build_chat_request, RequestConfig};
use chat_client::response::interpret_response;
use chat_client::url::build_endpoint_url;

fn plain_config() -> RequestConfig {
    RequestConfig {
        model: None,
        structured_prompt: false,
        prefix_user_content: false,
        generation_params: None,
    }
}

fn structured_config() -> RequestConfig {
    RequestConfig {
        model: None,
        structured_prompt: true,
        prefix_user_content: false,
        generation_params: Some(GenerationParams { max_tokens: 4000, temperature_tenths: 7 }),
    }
}

#[test]
fn success_response_yields_first_choice_content() {
    let body = "{\"choices\":[{\"message\":{\"role\":\"assistant\",\"content\":\"X\"}}]}";
    let r = interpret_response(200, body);
    assert_eq!(r.unwrap(), "X");
}

#[test]
fn success_response_with_several_choices_yields_the_first() {
    let body = "{\"choices\":[{\"message\":{\"role\":\"assistant\",\"content\":\"first\"}},\
                {\"message\":{\"role\":\"assistant\",\"content\":\"second\"}}]}";
    let r = interpret_response(200, body);
    assert_eq!(r.unwrap(), "first");
}

#[test]
fn trailing_slash_is_stripped_from_base_url() {
    let url = build_endpoint_url("https://api.example.com/");
    assert_eq!(url, "https://api.example.com/chat/completions");
}

#[test]
fn base_url_without_trailing_slash_is_kept() {
    let url = build_endpoint_url("https://api.example.com");
    assert_eq!(url, "https://api.example.com/chat/completions");
}

#[test]
fn every_trailing_slash_is_stripped() {
    let url = build_endpoint_url("https://api.example.com///");
    assert_eq!(url, "https://api.example.com/chat/completions");
}

#[test]
fn structured_prompt_parts_are_extracted() {
    let parts = extract_prompt_parts("{\"role\":\"R\",\"instructions\":{\"a\":1}}").unwrap();
    assert_eq!(parts.role.as_deref(), Some("R"));
    assert_eq!(parts.instructions_pretty.as_deref(), Some("{\n  \"a\": 1\n}"));
}

#[test]
fn structured_prompt_composes_role_and_pretty_instructions() {
    let parts = extract_prompt_parts("{\"role\":\"R\",\"instructions\":{\"a\":1}}").unwrap();
    let composed = compose_system_prompt(&parts);
    assert_eq!(
        composed,
        "Role: R\n\nInstructions: {\n  \"a\": 1\n}\n\nPlease strictly follow the above role and \
         instructions to analyze the following document content."
    );
}

#[test]
fn structured_prompt_defaults_fill_missing_fields() {
    let parts = extract_prompt_parts("{}").unwrap();
    assert!(parts.role.is_none());
    assert!(parts.instructions_pretty.is_none());
    let composed = compose_system_prompt(&parts);
    assert!(composed.contains("Role: AI助手"));
    assert!(composed.contains("Instructions: {}"));
}

#[test]
fn non_string_role_falls_back_to_default() {
    let parts = extract_prompt_parts("{\"role\":3}").unwrap();
    assert!(parts.role.is_none());
}

#[test]
fn malformed_structured_prompt_fails_without_a_request() {
    let config = structured_config();
    let r = build_analysis_request(&config, "key", "https://api.example.com", "{not json", "doc");
    match r {
        Err(ChatError::PromptParse(detail)) => {
            assert!(!detail.is_empty());
        }
        _ => panic!("expected a prompt parse error"),
    }
}

#[test]
fn plain_prompt_is_used_verbatim() {
    let config = plain_config();
    let req =
        build_analysis_request(&config, "sk-test", "https://api.example.com/", "sys", "doc")
            .unwrap();
    assert_eq!(req.url, "https://api.example.com/chat/completions");
    assert_eq!(req.authorization, "Bearer sk-test");
    assert_eq!(
        req.body,
        "{\"model\":\"gpt-4o\",\"messages\":[{\"role\":\"system\",\"content\":\"sys\"},\
         {\"role\":\"user\",\"content\":\"doc\"}]}"
    );
}

#[test]
fn named_model_and_prefix_are_forwarded() {
    let config = RequestConfig {
        model: Some(String::from("deepseek-chat")),
        structured_prompt: false,
        prefix_user_content: true,
        generation_params: None,
    };
    let req = build_analysis_request(&config, "k", "https://api.example.com", "sys", "doc")
        .unwrap();
    assert_eq!(
        req.body,
        "{\"model\":\"deepseek-chat\",\"messages\":[{\"role\":\"system\",\"content\":\"sys\"},\
         {\"role\":\"user\",\"content\":\"this is the uploaded document content, please begin \
         analysis:\\n\\ndoc\"}]}"
    );
}

#[test]
fn generation_params_are_rendered_in_the_body() {
    let config = structured_config();
    let req = build_analysis_request(&config, "k", "https://api.example.com", "{}", "doc")
        .unwrap();
    assert!(req.body.ends_with("],\"max_tokens\":4000,\"temperature\":0.7}"));
}

#[test]
fn body_strings_are_json_escaped() {
    let messages = vec![ChatMessage {
        role: String::from("system"),
        content: String::from("a\"b\\c\nd\te\ru\u{1}"),
    }];
    let body = build_request_body("gpt-4o", &messages, &None);
    assert_eq!(
        body,
        "{\"model\":\"gpt-4o\",\"messages\":[{\"role\":\"system\",\
         \"content\":\"a\\\"b\\\\c\\nd\\te\\ru\\u0001\"}]}"
    );
}

#[test]
fn built_body_is_valid_json_for_the_wire() {
    let config = RequestConfig {
        model: None,
        structured_prompt: false,
        prefix_user_content: false,
        generation_params: Some(GenerationParams { max_tokens: 4000, temperature_tenths: 7 }),
    };
    let req = build_chat_request(&config, "k", "https://api.example.com", "s\"y\ns", "d\\oc");
    let v: serde_json::Value = serde_json::from_str(&req.body).unwrap();
    assert_eq!(v.get("model").unwrap().as_str().unwrap(), "gpt-4o");
    assert_eq!(v.get("max_tokens").unwrap().as_u64().unwrap(), 4000);
    assert_eq!(v.get("temperature").unwrap().as_f64().unwrap(), 0.7);
    let messages = v.get("messages").unwrap().as_array().unwrap();
    assert_eq!(messages.len(), 2);
    assert_eq!(messages[0].get("role").unwrap().as_str().unwrap(), "system");
    assert_eq!(messages[0].get("content").unwrap().as_str().unwrap(), "s\"y\ns");
    assert_eq!(messages[1].get("role").unwrap().as_str().unwrap(), "user");
    assert_eq!(messages[1].get("content").unwrap().as_str().unwrap(), "d\\oc");
}

#[test]
fn non_success_status_reports_status_and_body() {
    let r = interpret_response(401, "invalid key");
    match r {
        Err(e @ ChatError::HttpStatus { .. }) => {
            let message = e.message();
            assert_eq!(message, "API request failed with status 401: invalid key");
            assert!(message.contains("401"));
            assert!(message.contains("invalid key"));
        }
        _ => panic!("expected an HTTP status error"),
    }
}

#[test]
fn empty_choices_yield_the_empty_choices_error() {
    let r = interpret_response(200, "{\"choices\":[]}");
    match r {
        Err(e @ ChatError::EmptyChoices) => {
            assert_eq!(e.message(), "API did not return any choices.");
        }
        _ => panic!("expected the empty choices error"),
    }
}

#[test]
fn invalid_json_body_yields_a_parse_error() {
    let r = interpret_response(200, "not json at all");
    assert!(matches!(r, Err(ChatError::ResponseParse(_))));
}

#[test]
fn wrong_shape_body_yields_a_parse_error() {
    let r = interpret_response(200, "{\"foo\":1}");
    assert!(matches!(r, Err(ChatError::ResponseParse(_))));
    let r = interpret_response(200, "{\"choices\":[{\"message\":{\"role\":\"assistant\"}}]}");
    assert!(matches!(r, Err(ChatError::ResponseParse(_))));
    let r = interpret_response(200, "{\"choices\":[{\"message\":{\"role\":\"assistant\",\"content\":7}}]}");
    assert!(matches!(r, Err(ChatError::ResponseParse(_))));
    let r = interpret_response(200, "{\"choices\":\"x\"}");
    assert!(matches!(r, Err(ChatError::ResponseParse(_))));
}

#[test]
fn transport_error_message_carries_the_description() {
    let e = ChatError::Transport(String::from("connection refused"));
    assert_eq!(e.message(), "Request error: connection refused");
}

#[test]
fn prompt_parse_error_message_carries_the_description() {
    let e = ChatError::PromptParse(String::from("expected value at line 1 column 1"));
    assert_eq!(
        e.message(),
        "Failed to parse the system prompt: expected value at line 1 column 1"
    );
}

#[test]
fn large_status_codes_are_rendered_in_full() {
    let e = ChatError::HttpStatus { status: 65535, body: String::from("x") };
    assert_eq!(e.message(), "API request failed with status 65535: x");
}
