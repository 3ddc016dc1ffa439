use chat_dispatch::client::{
    bearer, build_request, read_reply, ApiResponse, Choice, ClientError, Exchange, WireMessage,
};
use chat_dispatch::message::{Message, Role};

fn choice(content: &str) -> Choice {
    Choice { message: WireMessage { role: "assistant".to_string(), content: content.to_string() } }
}

#[test]
fn request_holds_the_whole_history_in_order() {
    let history = vec![
        Message::new(Role::System, "be brief".to_string()),
        Message::user("hi".to_string()),
        Message::assistant("hello".to_string()),
        Message::user("bye".to_string()),
    ];
    let request = build_request(&history, "model-x".to_string());
    assert_eq!(request.model, "model-x");
    let sent: Vec<(String, String)> =
        request.messages.iter().map(|m| (m.role.clone(), m.content.clone())).collect();
    assert_eq!(
        sent,
        vec![
            ("system".to_string(), "be brief".to_string()),
            ("user".to_string(), "hi".to_string()),
            ("assistant".to_string(), "hello".to_string()),
            ("user".to_string(), "bye".to_string()),
        ]
    );
}

#[test]
fn request_for_an_empty_history_has_no_messages() {
    let request = build_request(&Vec::new(), "model-x".to_string());
    assert_eq!(request.model, "model-x");
    assert!(request.messages.is_empty());
}

#[test]
fn bearer_header_is_scheme_space_credential() {
    assert_eq!(bearer("abc123"), "Bearer abc123");
    assert_eq!(bearer(""), "Bearer ");
}

#[test]
fn transport_failure_is_a_transport_error() {
    let result = read_reply(Exchange::TransportFailed("connection refused".to_string()));
    match result {
        Err(ClientError::Transport(detail)) => assert_eq!(detail, "connection refused"),
        other => panic!("unexpected {:?}", other),
    }
}

#[test]
fn unreadable_body_is_a_malformed_response() {
    assert!(matches!(read_reply(Exchange::Unreadable), Err(ClientError::MalformedResponse)));
}

#[test]
fn response_without_choices_is_no_choice() {
    let result = read_reply(Exchange::Parsed(ApiResponse { choices: Vec::new() }));
    assert!(matches!(result, Err(ClientError::NoChoice)));
}

#[test]
fn reply_is_the_first_choice() {
    let response = ApiResponse { choices: vec![choice("first"), choice("second")] };
    match read_reply(Exchange::Parsed(response)) {
        Ok(reply) => assert_eq!(reply, "first"),
        other => panic!("unexpected {:?}", other),
    }
}

#[test]
fn reply_is_returned_verbatim() {
    let response = ApiResponse { choices: vec![choice("  spaced \n\tout\n ")] };
    match read_reply(Exchange::Parsed(response)) {
        Ok(reply) => assert_eq!(reply, "  spaced \n\tout\n "),
        other => panic!("unexpected {:?}", other),
    }
}

#[test]
fn empty_reply_is_still_a_reply() {
    let response = ApiResponse { choices: vec![choice("")] };
    match read_reply(Exchange::Parsed(response)) {
        Ok(reply) => assert_eq!(reply, ""),
        other => panic!("unexpected {:?}", other),
    }
}

#[test]
fn client_errors_describe_themselves() {
    assert_eq!(
        ClientError::Transport("timed out".to_string()).describe(),
        "Request error: timed out"
    );
    assert_eq!(ClientError::NoChoice.describe(), "No choice found in the response");
    assert_eq!(
        ClientError::MalformedResponse.describe(),
        "Malformed response from the completion endpoint"
    );
}
