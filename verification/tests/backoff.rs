use dkms_wasm::poll::{Backoff, PollAction};

#[test]
fn five_refusals_then_give_up() {
    let mut b = Backoff::new();
    let mut waits = Vec::new();
    loop {
        match b.next() {
            PollAction::Send => match b.on_status(503) {
                PollAction::Wait(ms) => waits.push(ms),
                other => panic!("unexpected {:?}", other),
            },
            PollAction::GiveUp => break,
            other => panic!("unexpected {:?}", other),
        }
    }
    assert_eq!(waits, vec![1000, 2000, 4000, 8000, 16000]);
}

#[test]
fn success_reads_body() {
    let mut b = Backoff::new();
    assert_eq!(b.next(), PollAction::Send);
    assert_eq!(b.on_status(404), PollAction::Wait(1000));
    assert_eq!(b.next(), PollAction::Send);
    assert_eq!(b.on_status(200), PollAction::ReadBody);
}
