use mermaid_render::codec::decode_request;
use mermaid_render::codec::decode_simple;
use mermaid_render::codec::encode_response;
use mermaid_render::errors::RenderError;

fn text(s: &str) -> ciborium::value::Value {
    ciborium::value::Value::Text(s.to_string())
}

fn payload(entries: Vec<(ciborium::value::Value, ciborium::value::Value)>) -> Vec<u8> {
    let v = ciborium::value::Value::Map(entries);
    let mut out = Vec::new();
    ciborium::ser::into_writer(&v, &mut out).unwrap();
    out
}

#[test]
fn decode_diagram_and_theme() {
    let bytes = payload(vec![
        (text("diagram"), text("graph TD; A-->B")),
        (text("theme"), text("dark")),
    ]);
    let req = decode_request(&bytes).unwrap();
    assert_eq!(req.diagram, "graph TD; A-->B");
    assert_eq!(req.theme, Some("dark".to_string()));
}

#[test]
fn decode_theme_absent() {
    let bytes = payload(vec![(text("diagram"), text("graph"))]);
    let req = decode_request(&bytes).unwrap();
    assert_eq!(req.diagram, "graph");
    assert_eq!(req.theme, None);
}

#[test]
fn decode_theme_null() {
    let bytes = payload(vec![
        (text("diagram"), text("graph")),
        (text("theme"), ciborium::value::Value::Null),
    ]);
    let req = decode_request(&bytes).unwrap();
    assert_eq!(req.theme, None);
}

#[test]
fn decode_ignores_unknown_keys() {
    let bytes = payload(vec![
        (text("width"), ciborium::value::Value::Integer(7.into())),
        (text("diagram"), text("graph")),
    ]);
    let req = decode_request(&bytes).unwrap();
    assert_eq!(req.diagram, "graph");
}

#[test]
fn decode_ignores_non_text_keys() {
    let bytes = payload(vec![
        (ciborium::value::Value::Integer(0.into()), text("ignored")),
        (text("diagram"), text("graph")),
    ]);
    let req = decode_request(&bytes).unwrap();
    assert_eq!(req.diagram, "graph");
}

#[test]
fn decode_missing_diagram_fails() {
    let bytes = payload(vec![(text("theme"), text("dark"))]);
    let err = decode_request(&bytes).unwrap_err();
    assert!(matches!(err, RenderError::Decode(_)));
    assert!(err.message().contains("missing"));
}

#[test]
fn decode_diagram_not_text_fails() {
    let bytes = payload(vec![(text("diagram"), ciborium::value::Value::Integer(3.into()))]);
    let err = decode_request(&bytes).unwrap_err();
    assert!(matches!(err, RenderError::Decode(_)));
}

#[test]
fn decode_theme_not_text_fails() {
    let bytes = payload(vec![
        (text("diagram"), text("graph")),
        (text("theme"), ciborium::value::Value::Bool(true)),
    ]);
    let err = decode_request(&bytes).unwrap_err();
    assert!(matches!(err, RenderError::Decode(_)));
}

#[test]
fn decode_duplicate_diagram_fails() {
    let bytes = payload(vec![
        (text("diagram"), text("one")),
        (text("diagram"), text("two")),
    ]);
    let err = decode_request(&bytes).unwrap_err();
    assert!(err.message().contains("duplicate"));
}

#[test]
fn decode_non_map_payload_fails() {
    let v = text("just a string");
    let mut bytes = Vec::new();
    ciborium::ser::into_writer(&v, &mut bytes).unwrap();
    let err = decode_request(&bytes).unwrap_err();
    assert!(err.message().contains("not a map"));
}

#[test]
fn decode_malformed_bytes_fails() {
    let err = decode_request(&[0xa1]).unwrap_err();
    assert!(matches!(err, RenderError::Decode(_)));
    assert!(err.message().starts_with("Failed to deserialize input: "));
}

#[test]
fn decode_simple_valid_utf8() {
    let s = decode_simple("graph TD".as_bytes()).unwrap();
    assert_eq!(s, "graph TD");
}

#[test]
fn decode_simple_invalid_utf8_fails() {
    let err = decode_simple(&[0xff, 0xfe]).unwrap_err();
    assert!(matches!(err, RenderError::Decode(_)));
    assert!(err.message().starts_with("Invalid UTF-8 input: "));
}

#[test]
fn encode_response_is_cbor_text() {
    let bytes = encode_response("<svg/>").unwrap();
    let v: ciborium::value::Value = ciborium::de::from_reader(bytes.as_slice()).unwrap();
    assert_eq!(v, text("<svg/>"));
}

#[test]
fn error_message_carries_text() {
    let e = RenderError::Script("boom".to_string());
    assert_eq!(e.message(), "boom");
}
