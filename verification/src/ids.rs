use vstd::prelude::*;

use crate::error::{ErrorView, WasmError};
use crate::json_scan::is_cont;
use vstd::string::StrSliceExecFns;
use vstd::utf8::encode_utf8;

verus! {

/// Whether a text reads as a self-addressing identifier, and the text of
/// the error when it does not.
pub uninterp spec fn said_parse_outcome(text: Seq<char>) -> Result<(), Seq<char>>;

/// Whether a text reads as an identifier prefix, and the text of the error
/// when it does not.
pub uninterp spec fn prefix_parse_outcome(text: Seq<char>) -> Result<(), Seq<char>>;

/// The bytes of a SAID text that the SAID reader cuts inside a character
/// or past its end: after a leading `0` it slices bytes 1 to 2 (cesrox
/// `SelfAddressing::from_str`); a leading `1` it refuses without slicing.
pub open spec fn said_cut(t: Seq<u8>) -> bool {
    &&& t.len() > 0
    &&& t[0] == 0x30
    &&& (t.len() < 2 || (t.len() > 2 && is_cont(t[2])))
}

/// The bytes of an identifier text that the CESR code readers cut inside a
/// character or past its end: after a leading `0` they slice bytes 1 to 2,
/// after a leading `1` bytes 1 to 4 (cesrox `Basic`, `SelfAddressing` and
/// `SelfSigning::from_str`).
pub open spec fn code_cut(t: Seq<u8>) -> bool {
    &&& t.len() > 0
    &&& {
        ||| t[0] == 0x30 && (t.len() < 2 || (t.len() > 2 && is_cont(t[2])))
        ||| t[0] == 0x31 && (t.len() < 4 || (t.len() > 4 && is_cont(t[4])))
    }
}

/// A text that the identifier prefix reader can be given.
pub open spec fn code_text_safe(t: Seq<char>) -> bool {
    !code_cut(encode_utf8(t))
}

/// A text that the SAID reader can be given.
pub open spec fn said_text_safe(t: Seq<char>) -> bool {
    !said_cut(encode_utf8(t))
}

fn lead_cut(b: &[u8], one: bool) -> (r: bool)
    ensures
        r == (if one { code_cut(b@) } else { said_cut(b@) }),
{
    let n = b.len();
    if n == 0 {
        false
    } else if b[0] == 0x30 {
        n < 2 || (n > 2 && 0x80 <= b[2] && b[2] <= 0xbf)
    } else if one && b[0] == 0x31 {
        n < 4 || (n > 4 && 0x80 <= b[4] && b[4] <= 0xbf)
    } else {
        false
    }
}

/// Checks `said_text_safe`.
pub fn said_text_ok(text: &str) -> (ok: bool)
    ensures
        ok == said_text_safe(text@),
{
    !lead_cut(text.as_bytes(), false)
}

/// The error that a text whose derivation code is cut short gives.
pub open spec fn cut_code_error() -> Seq<char> {
    "incomplete derivation code"@
}

/// Checks `code_text_safe`.
pub fn code_text_ok(text: &str) -> (ok: bool)
    ensures
        ok == code_text_safe(text@),
{
    !lead_cut(text.as_bytes(), true)
}

/// Reads a SAID through `said::SelfAddressingIdentifier::from_str` and
/// drops the value read. Claimed: success and the error's text depend on
/// the text alone. `requires`: the reader slices the text after a leading
/// `0` (cesrox `SelfAddressing::from_str`) and panics where that cuts a
/// character or runs past the end.
#[verifier::external_body]
fn said_from_str(text: &str) -> (r: Result<(), String>)
    requires
        said_text_safe(text@),
    ensures
        match r {
            Ok(_) => said_parse_outcome(text@) is Ok,
            Err(e) => said_parse_outcome(text@) == Err::<(), Seq<char>>(e@),
        },
{
    text.parse::<said::SelfAddressingIdentifier>().map(|_| ()).map_err(|e| e.to_string())
}

/// Reads an identifier prefix through
/// `keri_core::prefix::IdentifierPrefix::from_str` and drops the value
/// read. Claimed: success and the error's text depend on the text alone.
/// `requires`: the basic, self-addressing and self-signing code readers
/// slice the text after a leading `0` or `1` and panic where that cuts a
/// character or runs past the end.
#[verifier::external_body]
fn prefix_from_str(text: &str) -> (r: Result<(), String>)
    requires
        code_text_safe(text@),
    ensures
        match r {
            Ok(_) => prefix_parse_outcome(text@) is Ok,
            Err(e) => prefix_parse_outcome(text@) == Err::<(), Seq<char>>(e@),
        },
{
    text.parse::<keri_core::prefix::IdentifierPrefix>().map(|_| ()).map_err(|e| e.to_string())
}

/// Whether a text is a SAID, with the error's text when it is not.
pub open spec fn said_check(text: Seq<char>) -> Result<(), Seq<char>> {
    if said_text_safe(text) {
        said_parse_outcome(text)
    } else {
        Err(cut_code_error())
    }
}

/// Whether a text is an identifier prefix, with the error's text when it is
/// not.
pub open spec fn prefix_check(text: Seq<char>) -> Result<(), Seq<char>> {
    if code_text_safe(text) {
        prefix_parse_outcome(text)
    } else {
        Err(cut_code_error())
    }
}

/// `r` hands back `text` when `check` accepts it, and otherwise the
/// invalid-input error whose text is `context` followed by the check's.
pub open spec fn checked_text(
    r: Result<Seq<char>, ErrorView>,
    text: Seq<char>,
    context: Seq<char>,
    check: Result<(), Seq<char>>,
) -> bool {
    match check {
        Ok(_) => r == Ok::<Seq<char>, ErrorView>(text),
        Err(x) => r == Err::<Seq<char>, ErrorView>(ErrorView::InvalidInput(context + x)),
    }
}

pub open spec fn text_view(r: Result<String, WasmError>) -> Result<Seq<char>, ErrorView> {
    match r {
        Ok(s) => Ok(s@),
        Err(e) => Err(e@),
    }
}

fn invalid_input(context: &str, detail: &str) -> (e: WasmError)
    ensures
        e@ == ErrorView::InvalidInput(context@ + detail@),
{
    let mut s = String::from_str(context);
    s.append(detail);
    WasmError::InvalidInput(s)
}

fn check_said(text: &str, context: &str) -> (r: Result<String, WasmError>)
    ensures
        checked_text(text_view(r), text@, context@, said_check(text@)),
{
    if !said_text_ok(text) {
        return Err(invalid_input(context, "incomplete derivation code"));
    }
    match said_from_str(text) {
        Ok(()) => Ok(text.to_owned()),
        Err(e) => Err(invalid_input(context, e.as_str())),
    }
}

/// Checks that the text naming a credential whose state is asked for is a
/// SAID, and hands the text back.
pub fn check_vc_said(prefix: &str) -> (r: Result<String, WasmError>)
    ensures
        checked_text(text_view(r), prefix@, "invalid prefix: "@, said_check(prefix@)),
{
    check_said(prefix, "invalid prefix: ")
}

/// Checks that an attestation's registry identifier is a SAID, and hands
/// the text back.
pub fn check_registry_id(text: &str) -> (r: Result<String, WasmError>)
    ensures
        checked_text(text_view(r), text@, "invalid registry identifier: "@, said_check(text@)),
{
    check_said(text, "invalid registry identifier: ")
}

/// Checks that an attestation's issuer is an identifier prefix, and hands
/// the text back.
pub fn check_issuer(text: &str) -> (r: Result<String, WasmError>)
    ensures
        checked_text(text_view(r), text@, "failed to parse issuer ID: "@, prefix_check(text@)),
{
    if !code_text_ok(text) {
        return Err(invalid_input("failed to parse issuer ID: ", "incomplete derivation code"));
    }
    match prefix_from_str(text) {
        Ok(()) => Ok(text.to_owned()),
        Err(e) => Err(invalid_input("failed to parse issuer ID: ", e.as_str())),
    }
}

} // verus!
