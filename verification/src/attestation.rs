use vstd::prelude::*;

use crate::error::{ErrorView, WasmError};
use crate::json_scan::{json_versions_ok, json_versions_safe};
use vstd::string::StringSliceAdditionalSpecFns;

verus! {

/// Serialization of the payload of a CESR message.
#[derive(Clone, Copy, Debug, PartialEq, Eq, Structural)]
pub enum PayloadFormat {
    Json,
    Cbor,
    Mgpk,
}

/// What the verification of a credential reads of an ACDC attestation: its
/// digest (SAID) in text, its issuer and its registry identifier.
pub struct AttestationInfo {
    pub digest: Option<String>,
    pub issuer: String,
    pub registry_identifier: String,
}

/// An attestation's fields taken as character sequences.
pub type AttestationView = (Option<Seq<char>>, Seq<char>, Seq<char>);

impl View for AttestationInfo {
    type V = AttestationView;

    open spec fn view(&self) -> AttestationView {
        (
            match self.digest {
                Some(d) => Some(d@),
                None => None,
            },
            self.issuer@,
            self.registry_identifier@,
        )
    }
}

/// The format and bytes of the payload that a CESR stream starts with, or
/// the text of the error that reading it gives.
pub uninterp spec fn cesr_payload(stream: Seq<u8>) -> Result<(PayloadFormat, Seq<u8>), Seq<char>>;

/// The attestation that JSON bytes hold, or the text of the error that
/// reading them gives.
pub uninterp spec fn json_attestation(bytes: Seq<u8>) -> Result<AttestationView, Seq<char>>;

/// Reads the payload at the start of a CESR stream through
/// `cesrox::payload::parse_payload`. Claimed: the format and bytes, or the
/// error's text, depend on the stream alone, and a CBOR payload is reported
/// only for a stream whose first byte has the high bits `101`. Attachments
/// after the payload are not read.
#[verifier::external_body]
fn parse_cesr_payload(stream: &[u8]) -> (r: Result<(PayloadFormat, Vec<u8>), String>)
    ensures
        match r {
            Ok((f, b)) => cesr_payload(stream@) == Ok::<(PayloadFormat, Seq<u8>), Seq<char>>((f, b@)),
            Err(e) => cesr_payload(stream@) == Err::<(PayloadFormat, Seq<u8>), Seq<char>>(e@),
        },
        r matches Ok((PayloadFormat::Cbor, _)) ==> stream@.len() > 0 && 0xa0 <= stream@[0] <= 0xbf,
{
    match cesrox::payload::parse_payload(stream) {
        Ok((_rest, payload)) => Ok(match payload {
            cesrox::payload::Payload::JSON(b) => (PayloadFormat::Json, b),
            cesrox::payload::Payload::CBOR(b) => (PayloadFormat::Cbor, b),
            cesrox::payload::Payload::MGPK(b) => (PayloadFormat::Mgpk, b),
        }),
        Err(e) => Err(e.to_string()),
    }
}

/// Reads an `acdc::Attestation` from JSON through `serde_json::from_slice`
/// and keeps the fields that verification reads, the digest in its CESR
/// text. Claimed: the fields, or the error's text, depend on the bytes
/// alone. `requires`: the version reader
/// (`said::version::SerializationInfo::from_str`) slices bytes 6 to 10 of a
/// 17-byte version string and panics where byte 10 falls inside a
/// character; `json_versions_safe` leaves out every JSON text in which a
/// string may read as such a version string.
#[verifier::external_body]
#[allow(deprecated)]
fn attestation_from_json(bytes: &[u8]) -> (r: Result<AttestationInfo, String>)
    requires
        json_versions_safe(bytes@),
    ensures
        match r {
            Ok(a) => json_attestation(bytes@) == Ok::<AttestationView, Seq<char>>(a@),
            Err(e) => json_attestation(bytes@) == Err::<AttestationView, Seq<char>>(e@),
        },
{
    serde_json::from_slice::<acdc::Attestation>(bytes)
        .map(|a| AttestationInfo {
            digest: a.digest.map(|d| d.to_string()),
            issuer: a.issuer,
            registry_identifier: a.registry_identifier,
        })
        .map_err(|e| e.to_string())
}

/// The error for JSON that the attestation reader is not given: one of its
/// strings may read as a version string cut inside a character.
pub open spec fn unread_json_error() -> Seq<char> {
    "version string cut inside a character"@
}

/// The attestation that a CESR message carries: a JSON payload is read
/// (refused when `json_versions_safe` fails), a MessagePack payload is
/// refused. A message given as text never starts with a CBOR payload
/// (`lemma_text_has_no_cbor_lead`, and the last clause of
/// `decode_attestation`); such a payload is refused too.
pub open spec fn attestation_of_message(message: Seq<u8>) -> Result<AttestationView, ErrorView> {
    match cesr_payload(message) {
        Err(e) => Err(ErrorView::Cesr("failed to parse CESR: "@ + e)),
        Ok((PayloadFormat::Json, b)) => if json_versions_safe(b) {
            match json_attestation(b) {
                Ok(a) => Ok(a),
                Err(e) => Err(ErrorView::Json(e)),
            }
        } else {
            Err(ErrorView::Json(unread_json_error()))
        },
        Ok((PayloadFormat::Cbor, _)) => Err(ErrorView::UnsupportedPayload("CBOR"@)),
        Ok((PayloadFormat::Mgpk, _)) => Err(ErrorView::UnsupportedPayload("MGPK"@)),
    }
}

/// Reads the attestation that a CESR message carries.
pub fn decode_attestation(message: &str) -> (r: Result<AttestationInfo, WasmError>)
    ensures
        match r {
            Ok(a) => attestation_of_message(message.spec_bytes()) == Ok::<AttestationView, ErrorView>(a@),
            Err(e) => attestation_of_message(message.spec_bytes()) == Err::<AttestationView, ErrorView>(e@),
        },
        !(cesr_payload(message.spec_bytes()) matches Ok((PayloadFormat::Cbor, _))),
{
    match parse_cesr_payload(message.as_bytes()) {
        Err(e) => {
            let mut s = String::from_str("failed to parse CESR: ");
            s.append(e.as_str());
            Err(WasmError::Cesr(s))
        },
        Ok((PayloadFormat::Json, b)) => {
            if !json_versions_ok(b.as_slice()) {
                return Err(WasmError::Json(String::from_str("version string cut inside a character")));
            }
            match attestation_from_json(b.as_slice()) {
                Ok(a) => Ok(a),
                Err(e) => Err(WasmError::Json(e)),
            }
        },
        Ok((PayloadFormat::Cbor, _)) => {
            proof {
                lemma_text_has_no_cbor_lead(message@);
                assert(false);
            }
            Err(WasmError::UnsupportedPayload("CBOR"))
        },
        Ok((PayloadFormat::Mgpk, _)) => Err(WasmError::UnsupportedPayload("MGPK")),
    }
}

/// The UTF-8 encoding of a text never starts with a continuation byte.
pub proof fn lemma_text_has_no_cbor_lead(chars: Seq<char>)
    ensures
        vstd::utf8::encode_utf8(chars).len() > 0 ==> !(0x80 <= vstd::utf8::encode_utf8(chars)[0] <= 0xbf),
{
    if chars.len() > 0 {
        vstd::utf8::encode_utf8_first_scalar(chars);
    }
}

} // verus!
