use dkms_wasm::error::WasmError;
use dkms_wasm::vc::TelStatus;
use dkms_wasm::verify::{VerifyAction, VerifyEvent, VerifyFlow};

const SAID: &str = "EInvgQ0OW7eFT2S71C5GF4wSGGI6j-8py9p2AWJehfYr";
const ISSUER: &str = "EDktiSxwTYFvMdPrY-mRBh1MpEZK6cErdXDBDxFFrk2M";
const REGISTRY: &str = "EIzCr2XcWClpQpQHEAdGhoqfqhsRc4mQMrIlac79sfxv";

fn acdc(digest: Option<&str>) -> String {
    let d = match digest {
        Some(d) => format!(r#""d":"{}","#, d),
        None => String::new(),
    };
    format!(
        r#"{{"v":"ACDC10JSON000107_",{}"i":"{}","ri":"{}","s":"EDktiSxwTYFvMdPrY-mRBh1MpEZK6cErdXDBDxFFrk2M","a":{{"d":"EIzCr2XcWClpQpQHEAdGhoqfqhsRc4mQMrIlac79sfxv","i":"target","a":{{"name":"Hella"}}}}}}"#,
        d, ISSUER, REGISTRY
    )
}

fn started(watcher: Option<&str>) -> VerifyFlow {
    let (flow, action) = VerifyFlow::start(&acdc(Some(SAID)), watcher.map(|w| w.to_string()));
    match action {
        VerifyAction::LookupVcState(said) => assert_eq!(said, SAID),
        _ => panic!("expected a state lookup"),
    }
    flow
}

fn result_of(a: VerifyAction) -> (bool, String) {
    match a {
        VerifyAction::Finish(Ok(r)) => (r.verified(), r.status().to_string()),
        _ => panic!("expected an answer"),
    }
}

fn error_of(a: VerifyAction) -> WasmError {
    match a {
        VerifyAction::Finish(Err(e)) => e,
        _ => panic!("expected an error"),
    }
}

#[test]
fn revoked_credential_is_answered_at_once() {
    let mut flow = started(Some("http://w.example.com/"));
    let a = flow.step(VerifyEvent::StateLooked(Ok(Some(TelStatus::Revoked))));
    assert_eq!(result_of(a), (false, "revoked".to_string()));
}

#[test]
fn full_run_ends_with_final_state() {
    let mut flow = started(Some("http://w.example.com/"));
    assert!(matches!(
        flow.step(VerifyEvent::StateLooked(Ok(None))),
        VerifyAction::ReadOobis
    ));
    match flow.step(VerifyEvent::OobisRead(Ok(()))) {
        VerifyAction::ResolveOobis(u) => assert_eq!(u, "http://w.example.com/resolve"),
        _ => panic!("expected the resolve endpoint"),
    }
    match flow.step(VerifyEvent::OobisResolved(Ok(()))) {
        VerifyAction::FetchKel(issuer) => assert_eq!(issuer, ISSUER),
        _ => panic!("expected the issuer's KEL query"),
    }
    match flow.step(VerifyEvent::KelFetched { known_sn: Some(0), kel: Ok(Ok(vec![])) }) {
        VerifyAction::ProcessKel(msgs) => assert!(msgs.is_empty()),
        _ => panic!("expected key events to process"),
    }
    match flow.step(VerifyEvent::KelProcessed(Ok(()))) {
        VerifyAction::FetchTel { registry, vc } => {
            assert_eq!(registry, REGISTRY);
            assert_eq!(vc, SAID);
        }
        _ => panic!("expected the TEL query"),
    }
    match flow.step(VerifyEvent::TelFetched(Ok("tel".to_string()))) {
        VerifyAction::ProcessTel(t) => assert_eq!(t, "tel"),
        _ => panic!("expected a log to process"),
    }
    match flow.step(VerifyEvent::TelProcessed(Ok(()))) {
        VerifyAction::LookupVcState(said) => assert_eq!(said, SAID),
        _ => panic!("expected a state lookup"),
    }
    let a = flow.step(VerifyEvent::StateLooked(Ok(Some(TelStatus::Issued))));
    assert_eq!(result_of(a), (true, "issued".to_string()));
}

#[test]
fn attestation_without_digest_is_refused() {
    let (_flow, a) = VerifyFlow::start(&acdc(None), None);
    assert!(matches!(error_of(a), WasmError::MissingSaid));
}

#[test]
fn broken_introductions_are_invalid_input() {
    let mut flow = started(Some("http://w.example.com/"));
    flow.step(VerifyEvent::StateLooked(Ok(Some(TelStatus::Issued))));
    let e = error_of(flow.step(VerifyEvent::OobisRead(Err("expected a sequence".to_string()))));
    assert_eq!(e.message(), "invalid input: invalid OOBI array: expected a sequence");
}

#[test]
fn watcher_is_required() {
    let mut flow = started(None);
    flow.step(VerifyEvent::StateLooked(Ok(None)));
    let e = error_of(flow.step(VerifyEvent::OobisRead(Ok(()))));
    assert!(matches!(e, WasmError::WatcherNotSet));
}

#[test]
fn watcher_failure_ends_verification() {
    let mut flow = started(Some("http://w.example.com/"));
    flow.step(VerifyEvent::StateLooked(Ok(None)));
    flow.step(VerifyEvent::OobisRead(Ok(())));
    let e = error_of(flow.step(VerifyEvent::OobisResolved(Err(WasmError::Network("refused".to_string())))));
    assert_eq!(e.message(), "network request failed: refused");
}

#[test]
fn failed_processing_is_controller_error() {
    let mut flow = started(Some("http://w.example.com/"));
    flow.step(VerifyEvent::StateLooked(Ok(None)));
    flow.step(VerifyEvent::OobisRead(Ok(())));
    flow.step(VerifyEvent::OobisResolved(Ok(())));
    flow.step(VerifyEvent::KelFetched { known_sn: None, kel: Ok(Ok(vec![])) });
    let e = error_of(flow.step(VerifyEvent::KelProcessed(Err("out of order".to_string()))));
    assert_eq!(e.message(), "controller error: out of order");
}

#[test]
fn unreadable_kel_is_cesr_error() {
    let mut flow = started(Some("http://w.example.com/"));
    flow.step(VerifyEvent::StateLooked(Ok(None)));
    flow.step(VerifyEvent::OobisRead(Ok(())));
    flow.step(VerifyEvent::OobisResolved(Ok(())));
    let e = error_of(flow.step(VerifyEvent::KelFetched { known_sn: None, kel: Ok(Err("bad".to_string())) }));
    assert_eq!(e.message(), "CESR processing failed: failed to parse KEL: bad");
}
