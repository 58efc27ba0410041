use dkms_wasm::endpoint::{endpoint, message_endpoint, message_path, resolve_endpoint, watcher_base, MessageKind};
use dkms_wasm::error::WasmError;

#[test]
fn watcher_url_is_normalised() {
    assert_eq!(
        watcher_base("http://watcher.example.com").ok().unwrap(),
        "http://watcher.example.com/"
    );
}

#[test]
fn bad_watcher_url_is_url_error() {
    match watcher_base("not a url") {
        Err(e @ WasmError::Url(_)) => assert!(e.message().starts_with("invalid URL: ")),
        _ => panic!("expected a URL error"),
    }
}

#[test]
fn introduce_endpoint() {
    assert_eq!(
        endpoint("http://watcher.example.com/", "introduce").ok().unwrap(),
        "http://watcher.example.com/introduce"
    );
}

#[test]
fn tel_query_endpoint() {
    assert_eq!(
        endpoint("http://w.example.com:3236/", "query/tel").ok().unwrap(),
        "http://w.example.com:3236/query/tel"
    );
}

#[test]
fn notices_go_to_process_and_replies_to_register() {
    assert_eq!(message_path(MessageKind::Notice), Some("process"));
    assert_eq!(message_path(MessageKind::Reply), Some("register"));
    assert_eq!(message_path(MessageKind::Other), None);
    assert_eq!(
        message_endpoint("http://w.example.com/", MessageKind::Notice).ok().unwrap(),
        Some("http://w.example.com/process".to_string())
    );
    assert_eq!(
        message_endpoint("http://w.example.com/", MessageKind::Reply).ok().unwrap(),
        Some("http://w.example.com/register".to_string())
    );
    assert_eq!(message_endpoint("http://w.example.com/", MessageKind::Other).ok().unwrap(), None);
}

#[test]
fn resolve_appends_to_watcher_url() {
    assert_eq!(resolve_endpoint("http://w.example.com/"), "http://w.example.com/resolve");
}

const LOCATION: &str = r#"{"eid":"BJq7UABlttINuWJh1Xl2lkqZG4NTdUdqnbFJDa6ZyxCC","scheme":"http","url":"http://w.example.com/"}"#;

#[test]
fn location_is_read() {
    let l = dkms_wasm::endpoint::read_location(LOCATION).ok().expect("location reads");
    assert_eq!(l.eid, "BJq7UABlttINuWJh1Xl2lkqZG4NTdUdqnbFJDa6ZyxCC");
    assert_eq!(l.url, "http://w.example.com/");
}

#[test]
fn cut_identifier_in_location_is_refused() {
    let text = r#"{"eid":"1","scheme":"http","url":"http://w.example.com/"}"#;
    match dkms_wasm::endpoint::read_location(text) {
        Err(e @ WasmError::Json(_)) => {
            assert_eq!(e.message(), "JSON (de)serialization failed: identifier code cut short or inside a character")
        }
        _ => panic!("expected a JSON error"),
    }
}

#[test]
fn text_that_is_no_location_is_json_error() {
    assert!(matches!(dkms_wasm::endpoint::read_location("{}"), Err(WasmError::Json(_))));
}

#[test]
fn escaped_location_is_read() {
    let text = r#"{"eid":"BJq7UABlttINuWJh1Xl2lkqZG4NTdUdqnbFJDa6ZyxCC","scheme":"http","url":"http:\/\/w.example.com\/","note":"1"}"#;
    let l = dkms_wasm::endpoint::read_location(text).ok().expect("location reads");
    assert_eq!(l.eid, "BJq7UABlttINuWJh1Xl2lkqZG4NTdUdqnbFJDa6ZyxCC");
    assert_eq!(l.url, "http://w.example.com/");
}

#[test]
fn location_given_as_array_with_cut_identifier_is_refused() {
    let text = r#"["0","http","http://w.example.com/"]"#;
    assert!(matches!(dkms_wasm::endpoint::read_location(text), Err(WasmError::Json(_))));
}

#[test]
fn escaped_cut_identifier_in_location_is_refused() {
    let text = r#"{"url":"http://w.example.com/","\u0065id":"\u0031A","scheme":"http"}"#;
    match dkms_wasm::endpoint::read_location(text) {
        Err(e @ WasmError::Json(_)) => {
            assert_eq!(e.message(), "JSON (de)serialization failed: identifier code cut short or inside a character")
        }
        _ => panic!("expected a JSON error"),
    }
}
