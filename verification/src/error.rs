use vstd::prelude::*;

verus! {

/// Errors that can cross the wasm boundary.
///
/// Every public binding method returns `Result<_, WasmError>`; the glue
/// layer turns the `Err` variant into a thrown JS `Error` whose message is
/// [`WasmError::message`]. Errors raised by outside libraries are carried
/// as the text they render to.
#[derive(Debug)]
pub enum WasmError {
    Url(String),
    Network(String),
    Json(String),
    Cbor(String),
    Cesr(String),
    Signing(String),
    Controller(String),
    Database(String),
    InvalidInput(String),
    IdentifierNotFound(String),
    MissingSaid,
    WatcherNotSet,
    UnsupportedPayload(&'static str),
}

/// An error with its texts taken as character sequences.
pub ghost enum ErrorView {
    Url(Seq<char>),
    Network(Seq<char>),
    Json(Seq<char>),
    Cbor(Seq<char>),
    Cesr(Seq<char>),
    Signing(Seq<char>),
    Controller(Seq<char>),
    Database(Seq<char>),
    InvalidInput(Seq<char>),
    IdentifierNotFound(Seq<char>),
    MissingSaid,
    WatcherNotSet,
    UnsupportedPayload(Seq<char>),
}

impl View for WasmError {
    type V = ErrorView;

    open spec fn view(&self) -> ErrorView {
        match self {
            WasmError::Url(s) => ErrorView::Url(s@),
            WasmError::Network(s) => ErrorView::Network(s@),
            WasmError::Json(s) => ErrorView::Json(s@),
            WasmError::Cbor(s) => ErrorView::Cbor(s@),
            WasmError::Cesr(s) => ErrorView::Cesr(s@),
            WasmError::Signing(s) => ErrorView::Signing(s@),
            WasmError::Controller(s) => ErrorView::Controller(s@),
            WasmError::Database(s) => ErrorView::Database(s@),
            WasmError::InvalidInput(s) => ErrorView::InvalidInput(s@),
            WasmError::IdentifierNotFound(s) => ErrorView::IdentifierNotFound(s@),
            WasmError::MissingSaid => ErrorView::MissingSaid,
            WasmError::WatcherNotSet => ErrorView::WatcherNotSet,
            WasmError::UnsupportedPayload(p) => ErrorView::UnsupportedPayload(p@),
        }
    }
}

/// The human readable message of an error.
pub open spec fn error_message(e: ErrorView) -> Seq<char> {
    match e {
        ErrorView::Url(s) => "invalid URL: "@ + s,
        ErrorView::Network(s) => "network request failed: "@ + s,
        ErrorView::Json(s) => "JSON (de)serialization failed: "@ + s,
        ErrorView::Cbor(s) => "CBOR deserialization failed: "@ + s,
        ErrorView::Cesr(s) => "CESR processing failed: "@ + s,
        ErrorView::Signing(s) => "signing failed: "@ + s,
        ErrorView::Controller(s) => "controller error: "@ + s,
        ErrorView::Database(s) => "database error: "@ + s,
        ErrorView::InvalidInput(s) => "invalid input: "@ + s,
        ErrorView::IdentifierNotFound(s) => "identifier not found: "@ + s,
        ErrorView::MissingSaid => "attestation does not contain a SAID digest"@,
        ErrorView::WatcherNotSet => "watcher for identifier is not configured"@,
        ErrorView::UnsupportedPayload(p) => p + " payload format is not supported"@,
    }
}

fn prefixed(prefix: &str, detail: &String) -> (m: String)
    ensures
        m@ == prefix@ + detail@,
{
    let mut m = String::from_str(prefix);
    m.append(detail.as_str());
    m
}

impl WasmError {
    /// The message a JS caller sees for this error.
    pub fn message(&self) -> (m: String)
        ensures
            m@ == error_message(self@),
    {
        match self {
            WasmError::Url(s) => prefixed("invalid URL: ", s),
            WasmError::Network(s) => prefixed("network request failed: ", s),
            WasmError::Json(s) => prefixed("JSON (de)serialization failed: ", s),
            WasmError::Cbor(s) => prefixed("CBOR deserialization failed: ", s),
            WasmError::Cesr(s) => prefixed("CESR processing failed: ", s),
            WasmError::Signing(s) => prefixed("signing failed: ", s),
            WasmError::Controller(s) => prefixed("controller error: ", s),
            WasmError::Database(s) => prefixed("database error: ", s),
            WasmError::InvalidInput(s) => prefixed("invalid input: ", s),
            WasmError::IdentifierNotFound(s) => prefixed("identifier not found: ", s),
            WasmError::MissingSaid => String::from_str("attestation does not contain a SAID digest"),
            WasmError::WatcherNotSet => String::from_str("watcher for identifier is not configured"),
            WasmError::UnsupportedPayload(p) => {
                let mut m = String::from_str(p);
                m.append(" payload format is not supported");
                m
            },
        }
    }
}

} // verus!
