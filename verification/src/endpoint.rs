use vstd::prelude::*;

use crate::error::{ErrorView, WasmError};
use crate::json_scan::{json_eid_ok, json_eid_safe};
use vstd::string::StringSliceAdditionalSpecFns;

verus! {

/// The serialization of the URL that a text parses to, or the text of the
/// parse error.
pub uninterp spec fn url_parse_outcome(text: Seq<char>) -> Result<Seq<char>, Seq<char>>;

/// The serialization of `relative` resolved against the URL `base`, or the
/// text of the error that resolving it gives.
pub uninterp spec fn url_join_outcome(base: Seq<char>, relative: Seq<char>) -> Result<Seq<char>, Seq<char>>;

/// Parses a URL through `url::Url::parse` and hands back its
/// serialization. Claimed: the serialization, or the error's text, depend on
/// the text alone.
#[verifier::external_body]
fn url_parse(text: &str) -> (r: Result<String, String>)
    ensures
        match r {
            Ok(u) => url_parse_outcome(text@) == Ok::<Seq<char>, Seq<char>>(u@),
            Err(e) => url_parse_outcome(text@) == Err::<Seq<char>, Seq<char>>(e@),
        },
{
    url::Url::parse(text).map(|u| u.to_string()).map_err(|e| e.to_string())
}

/// Resolves `relative` against `base` through `url::Url::join`; `base` is
/// read back into a `url::Url` first. Claimed: the serialization of the
/// result, or the error's text, depend on the two texts alone.
#[verifier::external_body]
fn url_join(base: &str, relative: &str) -> (r: Result<String, String>)
    ensures
        match r {
            Ok(u) => url_join_outcome(base@, relative@) == Ok::<Seq<char>, Seq<char>>(u@),
            Err(e) => url_join_outcome(base@, relative@) == Err::<Seq<char>, Seq<char>>(e@),
        },
{
    url::Url::parse(base).and_then(|u| u.join(relative)).map(|u| u.to_string()).map_err(|e| e.to_string())
}

/// `r` is the value that `outcome` holds, or the URL error carrying its text.
pub open spec fn url_result(r: Result<Seq<char>, ErrorView>, outcome: Result<Seq<char>, Seq<char>>) -> bool {
    match outcome {
        Ok(u) => r == Ok::<Seq<char>, ErrorView>(u),
        Err(e) => r == Err::<Seq<char>, ErrorView>(ErrorView::Url(e)),
    }
}

/// A result taken as character sequences.
pub open spec fn text_result(r: Result<String, WasmError>) -> Result<Seq<char>, ErrorView> {
    match r {
        Ok(s) => Ok(s@),
        Err(e) => Err(e@),
    }
}

/// Parses the URL of a watcher as a user gave it.
pub fn watcher_base(url: &str) -> (r: Result<String, WasmError>)
    ensures
        url_result(text_result(r), url_parse_outcome(url@)),
{
    match url_parse(url) {
        Ok(u) => Ok(u),
        Err(e) => Err(WasmError::Url(e)),
    }
}

/// The URL of the endpoint `path` of the watcher at `base`.
pub fn endpoint(base: &str, path: &str) -> (r: Result<String, WasmError>)
    ensures
        url_result(text_result(r), url_join_outcome(base@, path@)),
{
    match url_join(base, path) {
        Ok(u) => Ok(u),
        Err(e) => Err(WasmError::Url(e)),
    }
}

/// The URL to which out-of-band introductions are posted: the watcher's URL
/// text with `resolve` appended.
pub fn resolve_endpoint(base: &str) -> (r: String)
    ensures
        r@ == base@ + "resolve"@,
{
    let mut s = String::from_str(base);
    s.append("resolve");
    s
}

/// Kind of a message that registering a watcher produces.
#[derive(Clone, Copy, Debug, PartialEq, Eq, Structural)]
pub enum MessageKind {
    /// A key event (with its receipts).
    Notice,
    /// A signed reply.
    Reply,
    /// Any other operation.
    Other,
}

/// The watcher endpoint that takes a message of a kind: key events go to
/// `process`, replies to `register`, and nothing else is sent.
pub open spec fn message_path_spec(kind: MessageKind) -> Option<Seq<char>> {
    match kind {
        MessageKind::Notice => Some("process"@),
        MessageKind::Reply => Some("register"@),
        MessageKind::Other => None,
    }
}

/// The watcher endpoint that takes a message of a kind.
pub fn message_path(kind: MessageKind) -> (r: Option<&'static str>)
    ensures
        match r {
            Some(p) => message_path_spec(kind) == Some(p@),
            None => message_path_spec(kind) is None,
        },
{
    match kind {
        MessageKind::Notice => Some("process"),
        MessageKind::Reply => Some("register"),
        MessageKind::Other => None,
    }
}

/// The URL to which a message of a kind is posted, or `None` when such a
/// message is not sent.
pub fn message_endpoint(base: &str, kind: MessageKind) -> (r: Result<Option<String>, WasmError>)
    ensures
        match message_path_spec(kind) {
            None => r matches Ok(None),
            Some(p) => match url_join_outcome(base@, p) {
                Ok(u) => r matches Ok(Some(s)) && s@ == u,
                Err(e) => r matches Err(err) && err@ == ErrorView::Url(e),
            },
        },
{
    match message_path(kind) {
        None => Ok(None),
        Some(p) => match endpoint(base, p) {
            Ok(u) => Ok(Some(u)),
            Err(e) => Err(e),
        },
    }
}

/// What the bindings read of a watcher's location: its identifier prefix
/// and its URL, in text.
pub struct LocationInfo {
    pub eid: String,
    pub url: String,
}

impl View for LocationInfo {
    type V = (Seq<char>, Seq<char>);

    open spec fn view(&self) -> (Seq<char>, Seq<char>) {
        (self.eid@, self.url@)
    }
}

/// The identifier prefix and URL text of the watcher location that a JSON
/// text holds, or the text of the error that reading it gives.
pub uninterp spec fn location_json(text: Seq<char>) -> Result<(Seq<char>, Seq<char>), Seq<char>>;

/// Reads a `keri_core::oobi::LocationScheme` from JSON through
/// `serde_json::from_str` and hands back its identifier prefix and URL in
/// text. Claimed: these, or the error's text, depend on the text alone.
/// `requires`: the prefix reader panics on an identifier whose code it
/// cuts (`crate::ids::code_cut`); `json_eid_safe` leaves out every JSON
/// text whose `eid` may read as such an identifier.
#[verifier::external_body]
fn location_from_json(text: &str) -> (r: Result<LocationInfo, String>)
    requires
        json_eid_safe(text.spec_bytes()),
    ensures
        match r {
            Ok(l) => location_json(text@) == Ok::<(Seq<char>, Seq<char>), Seq<char>>(l@),
            Err(e) => location_json(text@) == Err::<(Seq<char>, Seq<char>), Seq<char>>(e@),
        },
{
    serde_json::from_str::<keri_core::oobi::LocationScheme>(text)
        .map(|l| LocationInfo { eid: l.eid.to_string(), url: l.url.to_string() })
        .map_err(|e| e.to_string())
}

/// The error for a location text that the reader is not given.
pub open spec fn unread_location_error() -> Seq<char> {
    "identifier code cut short or inside a character"@
}

/// The location that a watcher introduces itself with, as read from its
/// JSON text; a text that is no location, or that `json_eid_safe` refuses,
/// is a JSON error.
pub open spec fn location_of(text: Seq<char>) -> Result<(Seq<char>, Seq<char>), ErrorView> {
    if !json_eid_safe(vstd::utf8::encode_utf8(text)) {
        Err(ErrorView::Json(unread_location_error()))
    } else {
        match location_json(text) {
            Ok(l) => Ok(l),
            Err(e) => Err(ErrorView::Json(e)),
        }
    }
}

/// Reads the location that a watcher introduces itself with.
pub fn read_location(text: &str) -> (r: Result<LocationInfo, WasmError>)
    ensures
        match r {
            Ok(l) => location_of(text@) == Ok::<(Seq<char>, Seq<char>), ErrorView>(l@),
            Err(e) => location_of(text@) == Err::<(Seq<char>, Seq<char>), ErrorView>(e@),
        },
{
    if !json_eid_ok(text.as_bytes()) {
        return Err(WasmError::Json(String::from_str("identifier code cut short or inside a character")));
    }
    match location_from_json(text) {
        Ok(l) => Ok(l),
        Err(e) => Err(WasmError::Json(e)),
    }
}

} // verus!
