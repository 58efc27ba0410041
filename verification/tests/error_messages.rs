use dkms_wasm::error::WasmError;

fn s(t: &str) -> String {
    t.to_string()
}

#[test]
fn message_url() {
    assert_eq!(WasmError::Url(s("empty host")).message(), "invalid URL: empty host");
}

#[test]
fn message_network() {
    assert_eq!(WasmError::Network(s("timeout")).message(), "network request failed: timeout");
}

#[test]
fn message_json() {
    assert_eq!(WasmError::Json(s("EOF")).message(), "JSON (de)serialization failed: EOF");
}

#[test]
fn message_cbor() {
    assert_eq!(WasmError::Cbor(s("EOF")).message(), "CBOR deserialization failed: EOF");
}

#[test]
fn message_cesr() {
    assert_eq!(WasmError::Cesr(s("bad code")).message(), "CESR processing failed: bad code");
}

#[test]
fn message_signing() {
    assert_eq!(WasmError::Signing(s("no key")).message(), "signing failed: no key");
}

#[test]
fn message_controller() {
    assert_eq!(WasmError::Controller(s("boom")).message(), "controller error: boom");
}

#[test]
fn message_database() {
    assert_eq!(WasmError::Database(s("locked")).message(), "database error: locked");
}

#[test]
fn message_invalid_input() {
    assert_eq!(WasmError::InvalidInput(s("x")).message(), "invalid input: x");
}

#[test]
fn message_identifier_not_found() {
    assert_eq!(
        WasmError::IdentifierNotFound(s("alice")).message(),
        "identifier not found: alice"
    );
}

#[test]
fn message_missing_said() {
    assert_eq!(
        WasmError::MissingSaid.message(),
        "attestation does not contain a SAID digest"
    );
}

#[test]
fn message_watcher_not_set() {
    assert_eq!(
        WasmError::WatcherNotSet.message(),
        "watcher for identifier is not configured"
    );
}

#[test]
fn message_unsupported_payload() {
    assert_eq!(
        WasmError::UnsupportedPayload("MGPK").message(),
        "MGPK payload format is not supported"
    );
}
