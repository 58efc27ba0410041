use dkms_wasm::kel::{resume_from, window_messages, window_parsed_kel};

#[test]
fn whole_log_without_bounds() {
    assert_eq!(window_messages(vec![1, 2, 3], None, None), vec![1, 2, 3]);
}

#[test]
fn skip_from() {
    assert_eq!(window_messages(vec![1, 2, 3, 4], Some(1), None), vec![2, 3, 4]);
}

#[test]
fn skip_past_end_is_empty() {
    assert_eq!(window_messages(vec![1, 2, 3], Some(3), None), Vec::<i32>::new());
    assert_eq!(window_messages(vec![1, 2, 3], Some(u64::MAX), None), Vec::<i32>::new());
}

#[test]
fn limit_keeps_limit_plus_one() {
    assert_eq!(window_messages(vec![1, 2, 3, 4, 5], None, Some(1)), vec![1, 2]);
    assert_eq!(window_messages(vec![1, 2, 3, 4, 5], None, Some(0)), vec![1]);
}

#[test]
fn large_limit_keeps_all() {
    assert_eq!(window_messages(vec![1, 2, 3], None, Some(10)), vec![1, 2, 3]);
    assert_eq!(window_messages(vec![1, 2, 3], None, Some(u64::MAX)), vec![1, 2, 3]);
}

#[test]
fn skip_then_limit() {
    assert_eq!(window_messages(vec![1, 2, 3, 4, 5, 6], Some(2), Some(1)), vec![3, 4]);
}

#[test]
fn known_issuer_resumes_after_first_event() {
    assert_eq!(resume_from(Some(7)), Some(1));
    assert_eq!(resume_from(None), None);
}

#[test]
fn unreadable_log_is_cesr_error() {
    match window_parsed_kel(Err("bad group".to_string()), None, None) {
        Err(e) => assert_eq!(e.message(), "CESR processing failed: failed to parse KEL: bad group"),
        Ok(_) => panic!("expected an error"),
    }
}

#[test]
fn empty_log_gives_nothing() {
    assert!(window_parsed_kel(Ok(vec![]), Some(1), None).ok().unwrap().is_empty());
}
