use http_relay::descriptor::{collect_headers, header_fields, Descriptor, HeaderField, RequestIntent};
use http_relay::error::{Field, RelayError};
use http_relay::headers::Headers;
use http_relay::method::Method;
use http_relay::outbound::{build, encode_headers};
use http_relay::payload::{body_from_encoding, Payload};

fn pair(name: &str, value: &str) -> (String, String) {
    (name.to_string(), value.to_string())
}

fn text_entry(name: &str, value: &str) -> (String, HeaderField) {
    (name.to_string(), HeaderField::Text(value.to_string()))
}

fn description(url: Option<&str>, method: Option<&str>) -> Descriptor {
    Descriptor {
        url: url.map(str::to_string),
        method: method.map(str::to_string),
        headers: None,
        body: Payload::Absent,
    }
}

#[test]
fn a_valid_description_becomes_an_intent() {
    let mut raw = description(Some("http://example.com/a"), Some("post"));
    raw.headers = Some(vec![text_entry("X-Test", "abc")]);
    raw.body = Payload::Text("hello".to_string());
    let intent = RequestIntent::parse(raw).unwrap();
    assert_eq!(intent.target_url(), "http://example.com/a");
    assert_eq!(intent.method(), Method::Post);
    assert_eq!(intent.headers().to_pairs(), vec![pair("X-Test", "abc")]);
    assert!(matches!(intent.body(), Payload::Text(text) if text == "hello"));
}

#[test]
fn headers_and_body_are_optional() {
    let intent = RequestIntent::parse(description(Some("https://example.com"), Some("GET"))).unwrap();
    assert_eq!(intent.method(), Method::Get);
    assert_eq!(intent.headers().len(), 0);
    assert!(matches!(intent.body(), Payload::Absent));
}

#[test]
fn missing_url_is_reported() {
    let result = RequestIntent::parse(description(None, Some("GET")));
    assert_eq!(result.unwrap_err(), RelayError::MissingField(Field::Url));
}

#[test]
fn missing_method_is_reported() {
    let result = RequestIntent::parse(description(Some("http://example.com"), None));
    assert_eq!(result.unwrap_err(), RelayError::MissingField(Field::Method));
}

#[test]
fn missing_url_is_reported_before_missing_method() {
    let result = RequestIntent::parse(description(None, None));
    assert_eq!(result.unwrap_err(), RelayError::MissingField(Field::Url));
}

#[test]
fn invalid_url_is_reported() {
    let result = RequestIntent::parse(description(Some("not a url"), Some("GET")));
    assert_eq!(result.unwrap_err(), RelayError::InvalidUrl);
    let relative = RequestIntent::parse(description(Some("/path"), Some("GET")));
    assert_eq!(relative.unwrap_err(), RelayError::InvalidUrl);
}

#[test]
fn invalid_url_is_reported_before_invalid_method() {
    let result = RequestIntent::parse(description(Some("not a url"), Some("PATCH")));
    assert_eq!(result.unwrap_err(), RelayError::InvalidUrl);
}

#[test]
fn missing_method_is_reported_before_invalid_url() {
    let result = RequestIntent::parse(description(Some("not a url"), None));
    assert_eq!(result.unwrap_err(), RelayError::MissingField(Field::Method));
}

#[test]
fn unrecognized_method_is_reported() {
    for method in ["PATCH", "HEAD", "OPTIONS", "TRACE", "", "G E T"] {
        let result = RequestIntent::parse(description(Some("http://example.com"), Some(method)));
        assert_eq!(result.unwrap_err(), RelayError::InvalidMethod);
    }
}

#[test]
fn a_header_value_that_is_no_text_is_refused() {
    let mut raw = description(Some("http://example.com"), Some("GET"));
    raw.headers = Some(vec![
        text_entry("a", "1"),
        ("b".to_string(), HeaderField::Other),
        ("c".to_string(), HeaderField::Other),
    ]);
    let result = RequestIntent::parse(raw);
    assert_eq!(result.unwrap_err(), RelayError::InvalidHeaderEncoding("b".to_string()));
}

#[test]
fn collected_headers_keep_order_and_last_value() {
    let entries = vec![text_entry("a", "1"), text_entry("b", "2"), text_entry("a", "3")];
    let headers = collect_headers(entries).unwrap();
    assert_eq!(headers.to_pairs(), vec![pair("a", "3"), pair("b", "2")]);
    assert_eq!(collect_headers(Vec::new()).unwrap().len(), 0);
    let failing = vec![("x".to_string(), HeaderField::Other), text_entry("a", "1")];
    assert_eq!(collect_headers(failing).unwrap_err(), "x");
}

#[test]
fn building_takes_method_and_target_as_they_are() {
    let raw = description(Some("http://example.com/a?b=c"), Some("delete"));
    let intent = RequestIntent::parse(raw).unwrap();
    let request = build(&intent).unwrap();
    assert_eq!(request.method, Method::Delete);
    assert_eq!(request.uri, "http://example.com/a?b=c");
    assert_eq!(request.headers.len(), 0);
    assert_eq!(request.body, None);
}

#[test]
fn building_sends_a_raw_text_verbatim() {
    let mut raw = description(Some("http://example.com"), Some("POST"));
    raw.body = Payload::Text("hello w\u{f6}rld".to_string());
    let request = build(&RequestIntent::parse(raw).unwrap()).unwrap();
    assert_eq!(request.body, Some("hello w\u{f6}rld".as_bytes().to_vec()));
}

#[test]
fn building_serializes_a_document() {
    let mut object = serde_json::Map::new();
    object.insert("b".to_string(), serde_json::Value::Bool(true));
    object.insert("a".to_string(), serde_json::Value::from(1));
    let mut raw = description(Some("http://example.com"), Some("PUT"));
    raw.body = Payload::Json(serde_json::Value::Object(object));
    let request = build(&RequestIntent::parse(raw).unwrap()).unwrap();
    assert_eq!(request.body, Some(b"{\"a\":1,\"b\":true}".to_vec()));
}

#[test]
fn an_absent_document_is_sent_as_null() {
    assert_eq!(Payload::Json(serde_json::Value::Null).serialize().unwrap(), Some(b"null".to_vec()));
    assert_eq!(
        Payload::Json(serde_json::Value::String("hi".to_string())).serialize().unwrap(),
        Some(b"\"hi\"".to_vec())
    );
    assert_eq!(Payload::Absent.serialize().unwrap(), None);
    assert_eq!(Payload::Text(String::new()).serialize().unwrap(), Some(Vec::new()));
}

#[test]
fn a_serializer_failure_becomes_a_serialization_error() {
    assert_eq!(body_from_encoding(Ok(vec![1, 2, 3])).unwrap(), Some(vec![1, 2, 3]));
    assert_eq!(
        body_from_encoding(Err("key must be a string".to_string())).unwrap_err(),
        RelayError::BodySerializationError("key must be a string".to_string())
    );
}

#[test]
fn building_encodes_headers() {
    let mut raw = description(Some("http://example.com"), Some("GET"));
    raw.headers = Some(vec![
        text_entry("X-Test", "abc"),
        text_entry("Accept", "*/*"),
        text_entry("x-test", "def"),
    ]);
    let request = build(&RequestIntent::parse(raw).unwrap()).unwrap();
    assert_eq!(request.headers.to_pairs(), vec![pair("x-test", "def"), pair("accept", "*/*")]);
}

#[test]
fn building_refuses_a_header_that_cannot_be_encoded() {
    let mut raw = description(Some("http://example.com"), Some("GET"));
    raw.headers = Some(vec![
        text_entry("fine", "1"),
        text_entry("bad name", "2"),
        text_entry("also bad", "3"),
    ]);
    let result = build(&RequestIntent::parse(raw).unwrap());
    assert_eq!(result.unwrap_err(), RelayError::InvalidHeaderEncoding("bad name".to_string()));

    let mut raw = description(Some("http://example.com"), Some("GET"));
    raw.headers = Some(vec![text_entry("fine", "line\nbreak")]);
    let result = build(&RequestIntent::parse(raw).unwrap());
    assert_eq!(result.unwrap_err(), RelayError::InvalidHeaderEncoding("fine".to_string()));
}

#[test]
fn encode_headers_reports_the_first_offender() {
    let mut headers = Headers::new();
    headers.insert("Good".to_string(), "1".to_string());
    headers.insert("".to_string(), "2".to_string());
    headers.insert("b@d".to_string(), "3".to_string());
    assert_eq!(encode_headers(&headers).unwrap_err(), "");
    let mut fine = Headers::new();
    fine.insert("Good".to_string(), "1".to_string());
    assert_eq!(encode_headers(&fine).unwrap().to_pairs(), vec![pair("good", "1")]);
    assert_eq!(encode_headers(&Headers::new()).unwrap().len(), 0);
}

fn object(members: Vec<(&str, serde_json::Value)>) -> serde_json::Value {
    let mut map = serde_json::Map::new();
    for (name, value) in members {
        map.insert(name.to_string(), value);
    }
    serde_json::Value::Object(map)
}

fn text(value: &str) -> serde_json::Value {
    serde_json::Value::String(value.to_string())
}

#[test]
fn a_json_payload_is_read_field_by_field() {
    let payload = object(vec![
        ("url", text("http://example.com/x")),
        ("method", text("put")),
        ("headers", object(vec![("X-B", text("2")), ("X-A", text("1")), ("X-N", serde_json::Value::from(3))])),
        ("body", object(vec![("k", text("v"))])),
    ]);
    let raw = Descriptor::from_json(&payload);
    assert_eq!(raw.url.as_deref(), Some("http://example.com/x"));
    assert_eq!(raw.method.as_deref(), Some("put"));
    let headers = raw.headers.unwrap();
    assert_eq!(headers.len(), 3);
    let mut names: Vec<&str> = headers.iter().map(|(name, _)| name.as_str()).collect();
    names.sort();
    assert_eq!(names, vec!["X-A", "X-B", "X-N"]);
    for (name, field) in &headers {
        match name.as_str() {
            "X-A" => assert!(matches!(field, HeaderField::Text(value) if value == "1")),
            "X-B" => assert!(matches!(field, HeaderField::Text(value) if value == "2")),
            _ => assert!(matches!(field, HeaderField::Other)),
        }
    }
    assert!(matches!(raw.body, Payload::Json(ref document) if document == &object(vec![("k", text("v"))])));
}

#[test]
fn a_json_payload_without_fields_describes_nothing() {
    let raw = Descriptor::from_json(&object(Vec::new()));
    assert_eq!(raw.url, None);
    assert_eq!(raw.method, None);
    assert!(raw.headers.is_none());
    assert!(matches!(raw.body, Payload::Json(serde_json::Value::Null)));
    assert_eq!(RequestIntent::parse(raw).unwrap_err(), RelayError::MissingField(Field::Url));
}

#[test]
fn json_fields_of_the_wrong_kind_count_as_absent() {
    let payload = object(vec![
        ("url", serde_json::Value::from(17)),
        ("method", serde_json::Value::Bool(true)),
        ("headers", text("no object")),
    ]);
    let raw = Descriptor::from_json(&payload);
    assert_eq!(raw.url, None);
    assert_eq!(raw.method, None);
    assert!(raw.headers.is_none());
    let no_object = Descriptor::from_json(&text("just a text"));
    assert_eq!(no_object.url, None);
    assert!(matches!(no_object.body, Payload::Json(serde_json::Value::Null)));
}

#[test]
fn a_json_payload_without_method_is_refused() {
    let payload = object(vec![("url", text("http://example.com"))]);
    let result = RequestIntent::parse(Descriptor::from_json(&payload));
    assert_eq!(result.unwrap_err(), RelayError::MissingField(Field::Method));
}

#[test]
fn a_json_payload_is_relayed_with_its_body_serialized() {
    let payload = object(vec![
        ("url", text("http://example.com")),
        ("method", text("POST")),
        ("headers", object(vec![("Content-Type", text("application/json"))])),
        ("body", object(vec![("n", serde_json::Value::from(1))])),
    ]);
    let intent = RequestIntent::parse(Descriptor::from_json(&payload)).unwrap();
    let request = build(&intent).unwrap();
    assert_eq!(request.method, Method::Post);
    assert_eq!(request.headers.to_pairs(), vec![pair("content-type", "application/json")]);
    assert_eq!(request.body, Some(b"{\"n\":1}".to_vec()));
}

#[test]
fn header_fields_keep_texts_and_mark_the_rest() {
    let entries = vec![("a".to_string(), Some("1".to_string())), ("b".to_string(), None)];
    let fields = header_fields(&entries);
    assert_eq!(fields.len(), 2);
    assert_eq!(fields[0].0, "a");
    assert!(matches!(fields[0].1, HeaderField::Text(ref value) if value == "1"));
    assert_eq!(fields[1].0, "b");
    assert!(matches!(fields[1].1, HeaderField::Other));
    assert!(header_fields(&Vec::new()).is_empty());
}
