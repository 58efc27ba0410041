use vstd::prelude::*;

use crate::error::{ErrorView, WasmError};
use keri_core::event_message::signed_event_message::Message;

verus! {

/// The messages that remain after skipping the first `from` of them.
pub open spec fn skip_prefix<T>(msgs: Seq<T>, from: Option<u64>) -> Seq<T> {
    match from {
        Some(f) => if f < msgs.len() { msgs.skip(f as int) } else { Seq::empty() },
        None => msgs,
    }
}

/// The first `limit + 1` messages, or all of them when there are fewer.
pub open spec fn keep_prefix<T>(msgs: Seq<T>, limit: Option<u64>) -> Seq<T> {
    match limit {
        Some(l) => if l + 1 < msgs.len() { msgs.take(l + 1) } else { msgs },
        None => msgs,
    }
}

/// The messages of a key event log that `process_kel` hands on: the first
/// `from` messages are skipped, and of the rest at most `limit + 1` are
/// kept, in their order.
pub open spec fn kel_window<T>(msgs: Seq<T>, from: Option<u64>, limit: Option<u64>) -> Seq<T> {
    keep_prefix(skip_prefix(msgs, from), limit)
}

/// Cuts a parsed key event log to the window that `from` and `limit` select.
pub fn window_messages<T>(msgs: Vec<T>, from: Option<u64>, limit: Option<u64>) -> (r: Vec<T>)
    ensures
        r@ == kel_window(msgs@, from, limit),
{
    let ghost all = msgs@;
    let mut msgs = msgs;
    if let Some(f) = from {
        if f < msgs.len() as u64 {
            let rest = msgs.split_off(f as usize);
            msgs = rest;
        } else {
            msgs = Vec::new();
        }
    }
    let ghost rest = msgs@;
    assert(rest =~= skip_prefix(all, from));
    assert(rest.len() == msgs.len() && msgs.len() <= usize::MAX);
    if let Some(l) = limit {
        if l < u64::MAX && l + 1 < msgs.len() as u64 {
            msgs.truncate(l as usize + 1);
            assert(msgs@ =~= rest.take(l + 1));
        }
    }
    assert(msgs@ =~= keep_prefix(skip_prefix(all, from), limit));
    msgs
}

#[verifier::external_type_specification]
#[verifier::external_body]
pub struct ExMessage(Message);

/// The error that an unreadable key event log gives.
pub open spec fn kel_error(e: Seq<char>) -> ErrorView {
    ErrorView::Cesr("failed to parse KEL: "@ + e)
}

/// Keeps the window that `from` and `limit` select of the messages read
/// from a key event log; a log that could not be read is a CESR error
/// carrying the reader's error.
pub fn window_parsed_kel(parsed: Result<Vec<Message>, String>, from: Option<u64>, limit: Option<u64>) -> (r: Result<Vec<Message>, WasmError>)
    ensures
        match parsed {
            Ok(msgs) => r matches Ok(v) && v@ == kel_window(msgs@, from, limit),
            Err(e) => r matches Err(err) && err@ == kel_error(e@),
        },
{
    match parsed {
        Ok(msgs) => Ok(window_messages(msgs, from, limit)),
        Err(e) => {
            let mut s = String::from_str("failed to parse KEL: ");
            s.append(e.as_str());
            Err(WasmError::Cesr(s))
        },
    }
}

/// Where a fresh read of an issuer's log starts: a log that is already
/// known locally has its first message skipped.
pub fn resume_from(known_sn: Option<u64>) -> (r: Option<u64>)
    ensures
        r == (if known_sn is Some { Some(1u64) } else { None::<u64> }),
{
    match known_sn {
        Some(_) => Some(1),
        None => None,
    }
}

} // verus!
