use dkms_wasm::error::WasmError;
use dkms_wasm::ids::check_vc_said;
use dkms_wasm::vc::{vc_state_from_lookup, vc_state_of, TelStatus, VcState, VerificationResult};

#[test]
fn log_states_map_to_reported_states() {
    assert_eq!(vc_state_of(Some(TelStatus::Issued)), VcState::Issued);
    assert_eq!(vc_state_of(Some(TelStatus::Revoked)), VcState::Revoked);
    assert_eq!(vc_state_of(Some(TelStatus::NotIssued)), VcState::NotIssued);
    assert_eq!(vc_state_of(None), VcState::NotIssued);
}

#[test]
fn issued_is_verified() {
    let r = VerificationResult::from(VcState::Issued);
    assert!(r.verified());
    assert_eq!(r.status(), "issued");
}

#[test]
fn revoked_is_not_verified() {
    let r = VerificationResult::from(VcState::Revoked);
    assert!(!r.verified());
    assert_eq!(r.status(), "revoked");
}

#[test]
fn not_issued_is_not_verified() {
    let r = VerificationResult::from(VcState::NotIssued);
    assert!(!r.verified());
    assert_eq!(r.status(), "not issued");
}

#[test]
fn lookup_answer_is_mapped() {
    assert!(matches!(vc_state_from_lookup(Ok(None)), Ok(VcState::NotIssued)));
    assert!(matches!(
        vc_state_from_lookup(Ok(Some(TelStatus::Revoked))),
        Ok(VcState::Revoked)
    ));
}

#[test]
fn failed_lookup_is_controller_error() {
    match vc_state_from_lookup(Err("no tel".to_string())) {
        Err(e @ WasmError::Controller(_)) => assert_eq!(e.message(), "controller error: no tel"),
        _ => panic!("expected a controller error"),
    }
}

#[test]
fn state_lookup_twice_answers_the_same() {
    let said = "EInvgQ0OW7eFT2S71C5GF4wSGGI6j-8py9p2AWJehfYr";
    let once = check_vc_said(said).ok().map(|_| vc_state_from_lookup(Ok(Some(TelStatus::Issued))).ok());
    let twice = check_vc_said(said).ok().map(|_| vc_state_from_lookup(Ok(Some(TelStatus::Issued))).ok());
    assert_eq!(once, twice);
    assert_eq!(once, Some(Some(VcState::Issued)));
    assert!(check_vc_said("registry").is_err());
    assert!(check_vc_said("registry").is_err());
}
