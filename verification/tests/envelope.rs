use decentralised_lambda_runtime::greeting::Request;
use decentralised_lambda_runtime::response::error_document;
use decentralised_lambda_runtime::text::{escape_str, parse_one_string_doc, str_has_prefix};
use decentralised_lambda_runtime::{Config, Context, Decodable, EventError, LambdaEvent};

#[test]
fn config_default_names_the_documented_paths() {
    let config = Config::default();
    assert_eq!(config.input_path, "/inputs/input.json");
    assert_eq!(config.output_path, "/outputs/output.json");
}

#[test]
fn event_error_new_keeps_both_fields() {
    let event_error = EventError::new("SomeKind", "some message");
    assert_eq!(event_error.diagnostic.error_type, "SomeKind");
    assert_eq!(event_error.diagnostic.error_msg, "some message");
}

#[test]
fn lambda_event_new_pairs_payload_and_context() {
    let event = LambdaEvent::new(Request { name: String::from("pair") }, Context::new());
    assert_eq!(event.payload.name, "pair");
}

#[test]
fn error_document_has_the_stable_camel_cased_shape() {
    let document = error_document("KindA", "went wrong");
    assert_eq!(document, "{\"errorType\":\"KindA\",\"errorMsg\":\"went wrong\"}");
}

#[test]
fn error_document_escapes_quotes_and_backslashes() {
    let document = error_document("K", "a \"b\" c\\d");
    assert_eq!(document, "{\"errorType\":\"K\",\"errorMsg\":\"a \\\"b\\\" c\\\\d\"}");
    let value: serde_json::Value = serde_json::from_str(&document).unwrap();
    assert_eq!(value["errorMsg"].as_str().unwrap(), "a \"b\" c\\d");
}

#[test]
fn control_characters_become_code_escapes() {
    let document = error_document("K", "line one\nline two\ttabbed");
    assert_eq!(
        document,
        "{\"errorType\":\"K\",\"errorMsg\":\"line one\\u000aline two\\u0009tabbed\"}"
    );
    let value: serde_json::Value = serde_json::from_str(&document).unwrap();
    assert_eq!(value["errorMsg"].as_str().unwrap(), "line one\nline two\ttabbed");
}

#[test]
fn request_decode_resolves_code_escapes() {
    let decoded = Request::decode("{\"name\":\"a\\u0001b\"}").expect("decodable");
    assert_eq!(decoded.name, "a\u{1}b");
}

#[test]
fn escape_str_leaves_plain_text_alone() {
    assert_eq!(escape_str("plain text"), "plain text");
    assert_eq!(escape_str("say \"hi\""), "say \\\"hi\\\"");
}

#[test]
fn request_decode_resolves_escapes() {
    let decoded = Request::decode("{\"name\":\"a \\\"b\\\\c\"}").expect("decodable");
    assert_eq!(decoded.name, "a \"b\\c");
}

#[test]
fn request_decode_rejects_malformed_documents() {
    assert!(Request::decode("").is_err());
    assert!(Request::decode("{\"name\":\"unterminated").is_err());
    assert!(Request::decode("{\"name\":\"extra\"} ").is_err());
    assert!(Request::decode("{\"other\":\"field\"}").is_err());
    let message = Request::decode("{}").unwrap_err();
    assert!(!message.is_empty());
}

#[test]
fn parse_one_string_doc_takes_only_the_exact_shape() {
    assert_eq!(parse_one_string_doc("{\"k\":\"v\"}", "{\"k\":\""), Some(String::from("v")));
    assert_eq!(parse_one_string_doc("{\"k\":\"v\"}x", "{\"k\":\""), None);
    assert_eq!(parse_one_string_doc("{\"k\":\"v\"", "{\"k\":\""), None);
}

#[test]
fn str_has_prefix_checks_characters() {
    assert!(str_has_prefix("abcdef", "abc"));
    assert!(!str_has_prefix("abcdef", "abd"));
    assert!(!str_has_prefix("ab", "abc"));
}
