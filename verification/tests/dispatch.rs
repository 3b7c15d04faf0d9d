use decentralised_lambda_runtime::greeting::{run_greeting, Greeting, Request};
use decentralised_lambda_runtime::{
    run_handler, Decodable, Encodable, HandlerFault, LambdaEvent, ReadFailure,
};

fn parse_failure_doc(body: &str) -> (String, String) {
    let value: serde_json::Value = serde_json::from_str(body).expect("failure document is JSON");
    let error_type = value["errorType"].as_str().expect("errorType is a string").to_string();
    let error_msg = value["errorMsg"].as_str().expect("errorMsg is a string").to_string();
    (error_type, error_msg)
}

#[test]
fn greeting_scenario_writes_the_plain_encoding() {
    let response = run_greeting(Ok(String::from("{\"name\":\"world\"}")));
    assert_eq!(response.status().as_u16(), 200);
    assert_eq!(response.body(), "{\"msg\":\"Hello, world\"}");
}

#[test]
fn missing_input_reports_a_read_failure_document() {
    let failure = ReadFailure {
        message: String::from("No such file or directory (os error 2)"),
    };
    let response = run_greeting(Err(failure));
    assert_eq!(response.status().as_u16(), 500);
    let (error_type, error_msg) = parse_failure_doc(response.body());
    assert_eq!(error_type, "InputReadError");
    assert_eq!(error_msg, "No such file or directory (os error 2)");
    assert!(!error_type.is_empty());
}

#[test]
fn invalid_document_reports_a_decode_failure_document() {
    let response = run_greeting(Ok(String::from("this is not a request document")));
    assert_eq!(response.status().as_u16(), 500);
    let (error_type, error_msg) = parse_failure_doc(response.body());
    assert_eq!(error_type, "DecodeError");
    assert!(!error_msg.is_empty());
}

#[test]
fn handler_error_reports_its_declared_kind() {
    let handler = |_event: LambdaEvent<Request>| -> Result<Greeting, HandlerFault> {
        Err(HandlerFault::new(
            String::from("SomethingBad"),
            String::from("the handler gave up"),
        ))
    };
    let response = run_handler(handler, Ok(String::from("{\"name\":\"world\"}")));
    assert_eq!(response.status().as_u16(), 500);
    let (error_type, error_msg) = parse_failure_doc(response.body());
    assert_eq!(error_type, "SomethingBad");
    assert_eq!(error_msg, "the handler gave up");
}

#[test]
fn handler_error_with_an_empty_kind_still_has_a_kind() {
    let handler = |_event: LambdaEvent<Request>| -> Result<Greeting, HandlerFault> {
        Err(HandlerFault::new(String::new(), String::from("nameless")))
    };
    let response = run_handler(handler, Ok(String::from("{\"name\":\"world\"}")));
    assert_eq!(response.status().as_u16(), 500);
    let (error_type, error_msg) = parse_failure_doc(response.body());
    assert_eq!(error_type, "HandlerError");
    assert_eq!(error_msg, "nameless");
}

#[test]
fn success_body_is_the_direct_encoding_with_no_wrapping() {
    let response = run_handler(
        decentralised_lambda_runtime::greeting::my_handler,
        Ok(String::from("{\"name\":\"there\"}")),
    );
    assert_eq!(response.status().as_u16(), 200);
    let expected = Greeting { msg: String::from("Hello, there") }.encode();
    assert_eq!(response.body(), &expected);
    assert_eq!(response.body(), "{\"msg\":\"Hello, there\"}");
}

#[test]
fn identical_inputs_give_byte_identical_outputs() {
    let inputs = [
        Ok(String::from("{\"name\":\"twice\"}")),
        Ok(String::from("not decodable either time")),
        Err(ReadFailure { message: String::from("gone") }),
    ];
    for input in inputs {
        let first = run_greeting(input.clone());
        let second = run_greeting(input);
        assert_eq!(first.status(), second.status());
        assert_eq!(first.body(), second.body());
    }
}

#[test]
fn failure_document_escapes_its_message_for_an_independent_reader() {
    let handler = |_event: LambdaEvent<Request>| -> Result<Greeting, HandlerFault> {
        Err(HandlerFault::new(
            String::from("QuoteError"),
            String::from("a \"quoted\" back\\slash"),
        ))
    };
    let response = run_handler(handler, Ok(String::from("{\"name\":\"x\"}")));
    let (error_type, error_msg) = parse_failure_doc(response.body());
    assert_eq!(error_type, "QuoteError");
    assert_eq!(error_msg, "a \"quoted\" back\\slash");
}

#[test]
fn success_document_escapes_the_handler_text() {
    let response = run_greeting(Ok(String::from("{\"name\":\"a \\\"quoted\\\" friend\"}")));
    assert_eq!(response.status().as_u16(), 200);
    let value: serde_json::Value =
        serde_json::from_str(response.body()).expect("success document is JSON");
    assert_eq!(value["msg"].as_str().unwrap(), "Hello, a \"quoted\" friend");
}

#[test]
fn greeting_encoding_round_trips_through_its_own_codec() {
    let original = Greeting { msg: String::from("Hello, a \"tricky\\\" one") };
    let encoded = original.encode();
    let decoded = Greeting::decode(encoded.as_str()).expect("own encoding decodes");
    assert_eq!(decoded.msg, original.msg);
}
