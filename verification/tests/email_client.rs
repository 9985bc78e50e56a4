use api::domain::SubscriberEmail;
use api::email_client::{delivery_outcome, DeliveryError, EmailClient, TransportFault};

fn client() -> EmailClient {
    let sender = SubscriberEmail::parse("sender@example.com".to_string()).unwrap();
    EmailClient::new(
        "http://localhost:8025".to_string(),
        sender,
        "secret-token".to_string(),
        200,
    )
}

#[test]
fn construction_keeps_the_resolved_settings() {
    let c = client();
    assert_eq!(c.base_url, "http://localhost:8025");
    assert_eq!(c.sender.as_str(), "sender@example.com");
    assert_eq!(c.api_key, "secret-token");
    assert_eq!(c.timeout_milliseconds, 200);
}

#[test]
fn request_targets_the_messages_endpoint() {
    assert_eq!(client().request_url(), "http://localhost:8025/messages");
}

#[test]
fn authorization_header_uses_the_basic_scheme_verbatim() {
    let value = client().authorization_value();
    assert_eq!(value, "Basic secret-token");
    assert!(!value.is_empty());
}

#[test]
fn request_body_holds_exactly_the_five_fields_in_order() {
    let recipient = SubscriberEmail::parse("to@example.com".to_string()).unwrap();
    let body = client().request_body(&recipient, "Hello!", "<p>Hi</p>", "Hi");
    assert_eq!(
        body,
        "{\"from\":\"sender@example.com\",\"to\":\"to@example.com\",\
         \"subject\":\"Hello!\",\"text\":\"Hi\",\"html\":\"<p>Hi</p>\"}"
    );
    for key in ["\"from\":", "\"to\":", "\"subject\":", "\"text\":", "\"html\":"] {
        assert!(body.contains(key));
    }
}

#[test]
fn request_body_escapes_json_metacharacters() {
    let recipient = SubscriberEmail::parse("to@example.com".to_string()).unwrap();
    let body = client().request_body(&recipient, "a\"b\\c", "line1\nline2", "tab\there\r\u{1}");
    assert!(body.contains("\"subject\":\"a\\\"b\\\\c\""));
    assert!(body.contains("\"html\":\"line1\\nline2\""));
    assert!(body.contains("\"text\":\"tab\\there\\r\\u0001\""));
}

#[test]
fn successful_statuses_are_delivery_success() {
    assert!(delivery_outcome(Ok(200)).is_ok());
    assert!(delivery_outcome(Ok(201)).is_ok());
    assert!(delivery_outcome(Ok(204)).is_ok());
}

#[test]
fn server_error_status_is_a_delivery_failure() {
    match delivery_outcome(Ok(500)) {
        Err(DeliveryError::RejectedStatus(status)) => assert_eq!(status, 500),
        other => panic!("expected a rejected-status failure, got {:?}", other),
    }
}

#[test]
fn client_error_status_is_a_delivery_failure() {
    assert!(matches!(
        delivery_outcome(Ok(404)),
        Err(DeliveryError::RejectedStatus(404))
    ));
    assert!(matches!(
        delivery_outcome(Ok(400)),
        Err(DeliveryError::RejectedStatus(400))
    ));
    assert!(matches!(
        delivery_outcome(Ok(599)),
        Err(DeliveryError::RejectedStatus(599))
    ));
}

#[test]
fn timeout_is_a_delivery_failure_attributable_to_timeout() {
    assert!(matches!(
        delivery_outcome(Err(TransportFault::TimedOut)),
        Err(DeliveryError::TimedOut)
    ));
}

#[test]
fn transport_faults_are_delivery_failures_with_their_description() {
    match delivery_outcome(Err(TransportFault::Failed("connection refused".to_string()))) {
        Err(DeliveryError::Transport(detail)) => assert_eq!(detail, "connection refused"),
        other => panic!("expected a transport failure, got {:?}", other),
    }
}
