use http_relay::error::{ErrorClass, Field, RelayError};
use http_relay::method::Method;

#[test]
fn recognized_verbs_in_upper_case() {
    assert_eq!(Method::parse("GET"), Some(Method::Get));
    assert_eq!(Method::parse("POST"), Some(Method::Post));
    assert_eq!(Method::parse("PUT"), Some(Method::Put));
    assert_eq!(Method::parse("DELETE"), Some(Method::Delete));
}

#[test]
fn recognized_verbs_in_any_case() {
    assert_eq!(Method::parse("get"), Some(Method::Get));
    assert_eq!(Method::parse("Post"), Some(Method::Post));
    assert_eq!(Method::parse("pUt"), Some(Method::Put));
    assert_eq!(Method::parse("delete"), Some(Method::Delete));
}

#[test]
fn verbs_outside_the_set_are_refused() {
    assert_eq!(Method::parse("PATCH"), None);
    assert_eq!(Method::parse("HEAD"), None);
    assert_eq!(Method::parse("OPTIONS"), None);
    assert_eq!(Method::parse("patch"), None);
    assert_eq!(Method::parse(""), None);
    assert_eq!(Method::parse("GET "), None);
    assert_eq!(Method::parse("GETS"), None);
}

#[test]
fn tokens_are_read_exactly() {
    assert_eq!(Method::from_token("GET"), Some(Method::Get));
    assert_eq!(Method::from_token("DELETE"), Some(Method::Delete));
    assert_eq!(Method::from_token("get"), None);
    assert_eq!(Method::from_token("PATCH"), None);
    assert_eq!(Method::from_token("HEAD"), None);
}

#[test]
fn verbs_spell_their_canonical_token() {
    assert_eq!(Method::Get.as_str(), "GET");
    assert_eq!(Method::Post.as_str(), "POST");
    assert_eq!(Method::Put.as_str(), "PUT");
    assert_eq!(Method::Delete.as_str(), "DELETE");
    for verb in [Method::Get, Method::Post, Method::Put, Method::Delete] {
        assert_eq!(Method::from_token(verb.as_str()), Some(verb));
    }
}

#[test]
fn field_names() {
    assert_eq!(Field::Url.name(), "url");
    assert_eq!(Field::Method.name(), "method");
}

#[test]
fn validation_failures_are_400() {
    let failures = vec![
        RelayError::MissingField(Field::Url),
        RelayError::MissingField(Field::Method),
        RelayError::InvalidUrl,
        RelayError::InvalidMethod,
        RelayError::InvalidHeaderEncoding("x y".to_string()),
        RelayError::BodySerializationError("cause".to_string()),
    ];
    for failure in failures {
        assert_eq!(failure.class(), ErrorClass::Validation);
        assert_eq!(failure.status(), 400);
    }
}

#[test]
fn transport_and_decode_failures_are_500() {
    let transport = RelayError::TransportError("connection refused".to_string());
    assert_eq!(transport.class(), ErrorClass::Transport);
    assert_eq!(transport.status(), 500);
    assert_eq!(RelayError::BodyDecodeError.class(), ErrorClass::Decode);
    assert_eq!(RelayError::BodyDecodeError.status(), 500);
}

#[test]
fn messages_are_exact() {
    assert_eq!(RelayError::MissingField(Field::Url).message(), "url 필드가 필요합니다.");
    assert_eq!(RelayError::MissingField(Field::Method).message(), "method 필드가 필요합니다.");
    assert_eq!(RelayError::InvalidUrl.message(), "잘못된 URL 형식입니다.");
    assert_eq!(RelayError::InvalidMethod.message(), "Unsupported HTTP method");
    assert_eq!(
        RelayError::InvalidHeaderEncoding("bad name".to_string()).message(),
        "Invalid header entry: bad name"
    );
    assert_eq!(
        RelayError::BodySerializationError("why".to_string()).message(),
        "body를 직렬화 할 수 없습니다: why"
    );
    assert_eq!(RelayError::BodyDecodeError.message(), "Failed to read response body");
}

#[test]
fn a_transport_failure_is_reported_in_the_transports_words() {
    assert_eq!(RelayError::TransportError("dns error".to_string()).message(), "dns error");
    assert_eq!(
        RelayError::TransportError("error trying to connect: refused".to_string()).message(),
        "error trying to connect: refused"
    );
    assert_eq!(RelayError::TransportError(String::new()).message(), "");
}

#[test]
fn a_missing_field_is_named_at_the_start_of_its_message() {
    for field in [Field::Url, Field::Method] {
        let message = RelayError::MissingField(field).message();
        assert!(message.starts_with(field.name()));
    }
    assert_ne!(
        RelayError::MissingField(Field::Url).message(),
        RelayError::MissingField(Field::Method).message()
    );
}

#[test]
fn error_clone_keeps_the_failure() {
    let failure = RelayError::TransportError("timeout".to_string());
    assert_eq!(failure.clone(), failure);
    let missing = RelayError::MissingField(Field::Method);
    assert_eq!(missing.clone(), missing);
}
