//! Tests for the JSON document model, the text encoder and parser, and the
//! wire mappings.

use deepseek_rust::json::Json;
use deepseek_rust::parse::parse_json;
use deepseek_rust::wire::{api_error_from_json, request_from_json, request_to_json, response_from_json};
use deepseek_rust::{ChatCompletionRequest, Message, Model, Temperature};

#[test]
fn numbers_render_in_fixed_point() {
    assert_eq!(Json::Num(3000).to_text(), "3");
    assert_eq!(Json::Num(1500).to_text(), "1.5");
    assert_eq!(Json::Num(-25).to_text(), "-0.025");
    assert_eq!(Json::Num(0).to_text(), "0");
    assert_eq!(Json::Num(1677652288000).to_text(), "1677652288");
}

#[test]
fn strings_escape_and_parse_back() {
    let original = "say \"hi\"\\\nplease\ttabbed";
    let text = Json::Str(original.to_string()).to_text();
    assert_eq!(text, "\"say \\\"hi\\\"\\\\\\nplease\\ttabbed\"");
    match parse_json(&text) {
        Some(Json::Str(s)) => assert_eq!(s, original),
        _ => panic!("expected a string document"),
    }
}

#[test]
fn documents_parse_back_from_their_text() {
    let doc = Json::Obj(vec![
        ("a".to_string(), Json::Arr(vec![Json::Num(1000), Json::Bool(true), Json::Null])),
        ("b".to_string(), Json::Str("x".to_string())),
    ]);
    let text = doc.to_text();
    assert_eq!(text, "{\"a\":[1,true,null],\"b\":\"x\"}");
    assert_eq!(parse_json(&text), Some(doc));
}

#[test]
fn parser_accepts_whitespace_and_fractions() {
    let text = " { \"t\" : 0.5 , \"u\" : [ 1.25 , -2 ] } ";
    match parse_json(text) {
        Some(Json::Obj(fields)) => {
            assert_eq!(fields[0].0, "t");
            assert_eq!(fields[0].1, Json::Num(500));
            assert_eq!(fields[1].1, Json::Arr(vec![Json::Num(1250), Json::Num(-2000)]));
        }
        _ => panic!("expected an object document"),
    }
}

#[test]
fn parser_rejects_malformed_text() {
    assert_eq!(parse_json(""), None);
    assert_eq!(parse_json("{"), None);
    assert_eq!(parse_json("{\"a\":}"), None);
    assert_eq!(parse_json("[1,]"), None);
    assert_eq!(parse_json("\"unterminated"), None);
    assert_eq!(parse_json("1.2345"), None);
    assert_eq!(parse_json("null extra"), None);
}

#[test]
fn unset_members_are_omitted_not_null() {
    let request = ChatCompletionRequest::from_user_message("Hello".to_string());
    let text = request_to_json(&request).to_text();
    assert_eq!(
        text,
        "{\"model\":\"deepseek-chat\",\"messages\":[{\"role\":\"user\",\"content\":\"Hello\"}]}"
    );
    assert!(!text.contains("temperature"));
    assert!(!text.contains("null"));
}

#[test]
fn set_members_appear_in_order() {
    let request = ChatCompletionRequest::new(vec![Message::user("Hello".to_string())])
        .with_model(Model::Chat)
        .with_temperature(Temperature::medium())
        .with_max_tokens(500)
        .with_top_p(900)
        .with_frequency_penalty(500)
        .with_presence_penalty(300)
        .with_stop(vec!["END".to_string()])
        .with_n(2)
        .with_user("test-user".to_string());
    let text = request_to_json(&request).to_text();
    assert_eq!(
        text,
        "{\"model\":\"deepseek-chat\",\"messages\":[{\"role\":\"user\",\"content\":\"Hello\"}],\
         \"temperature\":0.7,\"max_tokens\":500,\"top_p\":0.9,\"frequency_penalty\":0.5,\
         \"presence_penalty\":0.3,\"stop\":[\"END\"],\"n\":2,\"user\":\"test-user\"}"
    );
}

// Round trip: serializing a request and re-parsing the same fields yields
// field-for-field equality, through the full text pipeline.
#[test]
fn request_round_trips_through_text() {
    let request = ChatCompletionRequest::new(vec![
        Message::system("You are a helpful assistant".to_string()),
        Message::user("Hello".to_string()),
    ])
    .with_model(Model::Reasoner)
    .with_temperature(Temperature::high())
    .with_max_tokens(128)
    .with_top_p(950)
    .with_frequency_penalty(-1500)
    .with_presence_penalty(2000)
    .with_stop(vec!["END".to_string(), "STOP".to_string()])
    .with_stream(false)
    .with_n(3)
    .with_user("someone".to_string());
    let text = request_to_json(&request).to_text();
    let doc = parse_json(&text).expect("the encoder's text parses");
    let parsed = request_from_json(&doc).expect("the document matches the request shape");
    assert_eq!(parsed, request);
}

#[test]
fn response_parses_from_success_body() {
    let body = "{\"id\":\"test-id\",\"object\":\"chat.completion\",\"created\":1234567890,\
        \"model\":\"deepseek-chat\",\"choices\":[{\"index\":0,\"message\":{\"role\":\"assistant\",\
        \"content\":\"Hello!\",\"reasoning_content\":\"Reasoning here\"},\"finish_reason\":\"stop\"}],\
        \"usage\":{\"prompt_tokens\":10,\"completion_tokens\":5,\"total_tokens\":15,\
        \"reasoning_tokens\":3}}";
    let doc = parse_json(body).expect("body parses");
    let response = response_from_json(&doc).expect("body matches the success shape");
    assert_eq!(response.id, "test-id");
    assert_eq!(response.object, "chat.completion");
    assert_eq!(response.created, 1234567890);
    assert_eq!(response.get_content(), Some("Hello!"));
    assert_eq!(response.get_reasoning(), Some("Reasoning here"));
    assert!(response.is_finished());
    assert_eq!(response.total_tokens(), Some(15));
    assert_eq!(response.usage.as_ref().unwrap().reasoning_tokens, Some(3));
}

#[test]
fn response_rejects_wrong_shape() {
    let doc = parse_json("{\"id\":\"x\"}").unwrap();
    assert!(response_from_json(&doc).is_err());
    let doc = parse_json("{\"id\":\"x\",\"object\":\"y\",\"created\":\"not-a-number\",\
        \"model\":\"m\",\"choices\":[]}")
    .unwrap();
    assert!(response_from_json(&doc).is_err());
}

#[test]
fn api_error_parses_from_error_body() {
    let body = "{\"error\":{\"message\":\"Invalid API key\",\"type\":\"invalid_request_error\",\
        \"code\":\"invalid_api_key\"}}";
    let doc = parse_json(body).expect("body parses");
    let err = api_error_from_json(&doc).expect("body matches the error shape");
    assert_eq!(err.error.message, "Invalid API key");
    assert_eq!(err.error.kind.as_deref(), Some("invalid_request_error"));
    assert_eq!(err.error.code.as_deref(), Some("invalid_api_key"));
    assert_eq!(err.error.param, None);
}

#[test]
fn unknown_model_name_is_rejected() {
    let doc = parse_json(
        "{\"model\":\"mystery-model\",\"messages\":[{\"role\":\"user\",\"content\":\"hi\"}]}",
    )
    .unwrap();
    assert!(request_from_json(&doc).is_err());
}
