use dkms_wasm::inception::prepare_inception;
use dkms_wasm::kel::window_parsed_kel;
use dkms_wasm::keys::KeysConfig;
use dkms_wasm::vc::TelStatus;
use dkms_wasm::verify::{VerifyAction, VerifyEvent, VerifyFlow};
use keri_core::event_message::cesr_adapter::{parse_event_type, EventType};
use keri_core::event_message::signed_event_message::{Message, Notice};
use keri_core::prefix::{IndexedSignature, SeedPrefix, SelfSigningPrefix};
use keri_core::signer::Signer;

fn parse_kel_window(kel: &str, from: Option<u64>, limit: Option<u64>) -> Result<Vec<Message>, dkms_wasm::error::WasmError> {
    window_parsed_kel(keri_core::actor::parse_event_stream(kel.as_bytes()).map_err(|e| e.to_string()), from, limit)
}

fn read(kel: &str) -> Result<Vec<Message>, String> {
    keri_core::actor::parse_event_stream(kel.as_bytes()).map_err(|e| e.to_string())
}

/// A CESR stream holding the same signed inception event `copies` times.
fn signed_inception_stream(copies: usize) -> String {
    let keys = KeysConfig { current: vec![1u8; 32], next: vec![2u8; 32] };
    let event = prepare_inception(&keys).ok().unwrap();
    let signer = Signer::new_with_seed(&SeedPrefix::RandomSeed256Ed25519(keys.current.clone())).unwrap();
    let signature = signer.sign(event.as_bytes()).unwrap();
    let signature = SelfSigningPrefix::new(
        cesrox::primitives::codes::self_signing::SelfSigning::Ed25519Sha512,
        signature,
    );
    let key_event = match parse_event_type(event.as_bytes()).unwrap() {
        EventType::KeyEvent(ke) => ke,
        _ => panic!("expected a key event"),
    };
    let signed = key_event.sign(vec![IndexedSignature::new_both_same(signature, 0)], None, None);
    let cesr = Message::Notice(Notice::Event(signed)).to_cesr().unwrap();
    String::from_utf8(cesr).unwrap().repeat(copies)
}

#[test]
fn signed_events_are_read_and_windowed() {
    let stream = signed_inception_stream(3);
    assert_eq!(parse_kel_window(&stream, None, None).ok().unwrap().len(), 3);
    assert_eq!(parse_kel_window(&stream, Some(1), None).ok().unwrap().len(), 2);
    assert_eq!(parse_kel_window(&stream, Some(1), Some(0)).ok().unwrap().len(), 1);
    assert_eq!(parse_kel_window(&stream, Some(5), None).ok().unwrap().len(), 0);
}

#[test]
fn text_that_is_no_cesr_gives_no_messages() {
    assert_eq!(parse_kel_window("debug dump", None, None).ok().unwrap().len(), 0);
}

fn flow_at_fetch_kel() -> VerifyFlow {
    let said = "EInvgQ0OW7eFT2S71C5GF4wSGGI6j-8py9p2AWJehfYr";
    let message = format!(
        r#"{{"v":"ACDC10JSON000107_","d":"{}","i":"{}","ri":"{}","s":"EDktiSxwTYFvMdPrY-mRBh1MpEZK6cErdXDBDxFFrk2M","a":{{"d":"EIzCr2XcWClpQpQHEAdGhoqfqhsRc4mQMrIlac79sfxv","a":{{}}}}}}"#,
        said, said, said
    );
    let (mut flow, _) = VerifyFlow::start(&message, Some("http://w.example.com/".to_string()));
    flow.step(VerifyEvent::StateLooked(Ok(Some(TelStatus::Issued))));
    flow.step(VerifyEvent::OobisRead(Ok(())));
    match flow.step(VerifyEvent::OobisResolved(Ok(()))) {
        VerifyAction::FetchKel(issuer) => assert_eq!(issuer, said),
        _ => panic!("expected the issuer's KEL query"),
    }
    flow
}

#[test]
fn known_issuer_skips_first_event() {
    let mut flow = flow_at_fetch_kel();
    match flow.step(VerifyEvent::KelFetched { known_sn: Some(0), kel: Ok(read(&signed_inception_stream(2))) }) {
        VerifyAction::ProcessKel(msgs) => assert_eq!(msgs.len(), 1),
        _ => panic!("expected key events to process"),
    }
}

#[test]
fn unknown_issuer_processes_whole_log() {
    let mut flow = flow_at_fetch_kel();
    match flow.step(VerifyEvent::KelFetched { known_sn: None, kel: Ok(read(&signed_inception_stream(2))) }) {
        VerifyAction::ProcessKel(msgs) => assert_eq!(msgs.len(), 2),
        _ => panic!("expected key events to process"),
    }
}
