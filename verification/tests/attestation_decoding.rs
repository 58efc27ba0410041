use dkms_wasm::attestation::decode_attestation;
use dkms_wasm::error::WasmError;

const ACDC: &str = r#"{"v":"ACDC10JSON000107_","d":"EInvgQ0OW7eFT2S71C5GF4wSGGI6j-8py9p2AWJehfYr","i":"issuer","ri":"registry","s":"EDktiSxwTYFvMdPrY-mRBh1MpEZK6cErdXDBDxFFrk2M","a":{"d":"EIzCr2XcWClpQpQHEAdGhoqfqhsRc4mQMrIlac79sfxv","i":"target","a":{"name":"Hella","species":"cat"}}}"#;

#[test]
fn json_attestation_is_read() {
    let a = decode_attestation(ACDC).ok().expect("attestation reads");
    assert_eq!(a.digest.as_deref(), Some("EInvgQ0OW7eFT2S71C5GF4wSGGI6j-8py9p2AWJehfYr"));
    assert_eq!(a.issuer, "issuer");
    assert_eq!(a.registry_identifier, "registry");
}

#[test]
fn non_cesr_message_is_cesr_error() {
    match decode_attestation("not a message") {
        Err(e @ WasmError::Cesr(_)) => {
            assert!(e.message().starts_with("CESR processing failed: failed to parse CESR: "))
        }
        _ => panic!("expected a CESR error"),
    }
}

#[test]
fn json_that_is_no_attestation_is_json_error() {
    assert!(matches!(decode_attestation(r#"{"x":1}"#), Err(WasmError::Json(_))));
}

#[test]
fn messagepack_lead_byte_that_does_not_read_is_cesr_error() {
    // 'é' starts with 0xc3, a MessagePack lead byte (true), which is no map.
    assert!(matches!(decode_attestation("é"), Err(WasmError::Cesr(_))));
}

#[test]
fn attachment_bytes_after_payload_are_not_read() {
    // Reading the attachments of this stream makes the CESR reader panic;
    // the payload alone is read, and it is no attestation.
    assert!(matches!(decode_attestation("{\"a\":1}€€"), Err(WasmError::Json(_))));
}

#[test]
fn version_text_with_cut_character_is_refused() {
    let message = ACDC.replace("ACDC10JSON000107_", "ACDC10JSOéN0000_");
    match decode_attestation(&message) {
        Err(e @ WasmError::Json(_)) => {
            assert_eq!(e.message(), "JSON (de)serialization failed: version string cut inside a character")
        }
        _ => panic!("expected a JSON error"),
    }
}

#[test]
fn escaped_json_is_read() {
    let message = ACDC.replace("Hella", "He\\u006cla \\\"the cat\\\" \\u00e9");
    let a = decode_attestation(&message).ok().expect("attestation reads");
    assert_eq!(a.issuer, "issuer");
    let message = ACDC.replace("\"i\":\"issuer\"", "\"i\":\"iss\\u0075er\\/x\"");
    let a = decode_attestation(&message).ok().expect("attestation reads");
    assert_eq!(a.issuer, "issuer/x");
}

#[test]
fn escaped_attestation_without_digest_is_missing_said() {
    let message = ACDC
        .replace("\"d\":\"EInvgQ0OW7eFT2S71C5GF4wSGGI6j-8py9p2AWJehfYr\",", "")
        .replace("Hella", "He\\\"lla");
    let a = decode_attestation(&message).ok().expect("attestation reads");
    assert_eq!(a.digest, None);
}

#[test]
fn escaped_text_that_may_read_as_a_cut_version_is_refused() {
    // Escapes and a character outside ASCII in a 17-byte text ending in `_`.
    let message = ACDC.replace("Hella", "\\u0041CDC10JSOéN000_");
    assert!(matches!(decode_attestation(&message), Err(WasmError::Json(_))));
}

#[test]
fn cut_digest_code_is_json_error() {
    let message = ACDC.replace("EInvgQ0OW7eFT2S71C5GF4wSGGI6j-8py9p2AWJehfYr", "0");
    assert!(matches!(decode_attestation(&message), Err(WasmError::Json(_))));
}
