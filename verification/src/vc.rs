use vstd::prelude::*;

use crate::error::{ErrorView, WasmError};

verus! {

/// Status of a verifiable credential as the bindings report it.
#[derive(Clone, Copy, Debug, PartialEq, Eq, Structural)]
pub enum VcState {
    Issued,
    Revoked,
    NotIssued,
}

/// What the transaction event log says of a credential, without the
/// issuance event's digest.
#[derive(Clone, Copy, Debug, PartialEq, Eq, Structural)]
pub enum TelStatus {
    NotIssued,
    Issued,
    Revoked,
}

/// A credential that the log does not know, or knows as not issued, is
/// reported as not issued.
pub open spec fn vc_state_spec(tel: Option<TelStatus>) -> VcState {
    match tel {
        Some(TelStatus::Issued) => VcState::Issued,
        Some(TelStatus::Revoked) => VcState::Revoked,
        Some(TelStatus::NotIssued) => VcState::NotIssued,
        None => VcState::NotIssued,
    }
}

/// Maps the log's answer for a credential to the reported state.
pub fn vc_state_of(tel: Option<TelStatus>) -> (s: VcState)
    ensures
        s == vc_state_spec(tel),
{
    match tel {
        Some(TelStatus::Issued) => VcState::Issued,
        Some(TelStatus::Revoked) => VcState::Revoked,
        None | Some(TelStatus::NotIssued) => VcState::NotIssued,
    }
}

/// Turns the controller's answer to a state lookup into the reported state;
/// a failed lookup becomes a controller error carrying its text.
pub fn vc_state_from_lookup(lookup: Result<Option<TelStatus>, String>) -> (r: Result<VcState, WasmError>)
    ensures
        match lookup {
            Ok(t) => r == Ok::<VcState, WasmError>(vc_state_spec(t)),
            Err(e) => r matches Err(err) && err@ == ErrorView::Controller(e@),
        },
{
    match lookup {
        Ok(t) => Ok(vc_state_of(t)),
        Err(e) => Err(WasmError::Controller(e)),
    }
}

/// The status word reported for a state.
pub open spec fn status_text(s: VcState) -> Seq<char> {
    match s {
        VcState::Issued => "issued"@,
        VcState::Revoked => "revoked"@,
        VcState::NotIssued => "not issued"@,
    }
}

/// Outcome of a credential verification handed back to JS.
pub struct VerificationResult {
    verified: bool,
    status: String,
}

impl View for VerificationResult {
    type V = (bool, Seq<char>);

    closed spec fn view(&self) -> (bool, Seq<char>) {
        (self.verified, self.status@)
    }
}

impl VerificationResult {
    /// Builds the result for a credential state: only an issued credential
    /// is verified.
    pub fn from(val: VcState) -> (r: VerificationResult)
        ensures
            r@.0 == (val == VcState::Issued),
            r@.1 == status_text(val),
    {
        match val {
            VcState::Issued => VerificationResult {
                verified: true,
                status: String::from_str("issued"),
            },
            VcState::Revoked => VerificationResult {
                verified: false,
                status: String::from_str("revoked"),
            },
            VcState::NotIssued => VerificationResult {
                verified: false,
                status: String::from_str("not issued"),
            },
        }
    }

    /// Whether the credential was found valid.
    pub fn verified(&self) -> (b: bool)
        ensures
            b == self@.0,
    {
        self.verified
    }

    /// The status word of the credential.
    pub fn status(&self) -> (s: &str)
        ensures
            s@ == self@.1,
    {
        self.status.as_str()
    }
}

} // verus!
