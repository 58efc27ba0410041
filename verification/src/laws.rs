use vstd::prelude::*;

use crate::error::{error_message, ErrorView};
use crate::kel::{kel_window, keep_prefix, skip_prefix};
use keri_core::event_message::signed_event_message::Message;
use crate::poll::{backoff_delay, Backoff, PollPhase, MAX_ATTEMPTS};
use crate::vc::{status_text, vc_state_spec, TelStatus, VcState};
use crate::verify::{accepts, finish, flow_start, flow_step, result_of, ActionView, EventView, FlowView, VerifyStage};
use crate::attestation::attestation_of_message;
use crate::ids::{prefix_check, said_check};
use crate::json_scan::{
    closing, is_cont, json_versions_safe, lemma_lex_string_start, lemma_plain_ascii_narrow, lex, plain_ascii, token,
    version_cut, json_eid_safe,
};
use crate::ids::code_cut;
use crate::inception::{inception_event_of, inception_of, KeyKind};

verus! {

/// Position of a stage in the order in which a verification passes them.
pub open spec fn stage_rank(s: VerifyStage) -> nat {
    match s {
        VerifyStage::LookupInitial => 0,
        VerifyStage::ReadOobis => 1,
        VerifyStage::ResolveOobis => 2,
        VerifyStage::FetchKel => 3,
        VerifyStage::ProcessKel => 4,
        VerifyStage::FetchTel => 5,
        VerifyStage::ProcessTel => 6,
        VerifyStage::LookupFinal => 7,
        VerifyStage::Done => 8,
    }
}

/// Every step of a verification moves it strictly forward, so a
/// verification ends after at most eight steps, and a finished one takes no
/// further event.
pub proof fn law_verification_progresses(f: FlowView, ev: EventView)
    ensures
        accepts(f.0, ev) ==> stage_rank(flow_step(f, ev).0) > stage_rank(f.0),
        !accepts(VerifyStage::Done, ev),
{
}

/// A verification finishes exactly when its action is an answer.
pub proof fn law_finish_iff_answer(f: FlowView, ev: EventView)
    requires
        accepts(f.0, ev),
    ensures
        (flow_step(f, ev).0 == VerifyStage::Done) <==> (flow_step(f, ev).1 is Finish),
{
}

/// A credential that the local log already holds as revoked is answered as
/// revoked and not verified, before the watcher is contacted.
pub proof fn law_revoked_short_circuit(f: FlowView)
    requires
        f.0 == VerifyStage::LookupInitial,
    ensures
        flow_step(f, EventView::StateLooked(Ok(Some(TelStatus::Revoked))))
            == (VerifyStage::Done, ActionView::Finish(Ok((false, "revoked"@)))),
{
}

/// The answer of a verification is "verified" exactly for an issued
/// credential, and its status word tells the three states apart.
pub proof fn law_verified_iff_issued(s: VcState, t: VcState)
    ensures
        result_of(s).0 <==> s == VcState::Issued,
        s != t ==> result_of(s) != result_of(t),
{
    reveal_strlit("issued");
    reveal_strlit("revoked");
    reveal_strlit("not issued");
    assert("revoked"@.len() != "not issued"@.len());
}

/// A credential that the log does not know is reported as not issued.
pub proof fn law_unknown_is_not_issued()
    ensures
        vc_state_spec(None) == VcState::NotIssued,
        vc_state_spec(Some(TelStatus::NotIssued)) == VcState::NotIssued,
{
}

/// A failure reported in any stage ends the verification with that very
/// failure.
pub proof fn law_failures_propagate(f: FlowView, e: ErrorView, sn: Option<u64>)
    ensures
        f.0 == VerifyStage::ResolveOobis ==> flow_step(f, EventView::OobisResolved(Err(e))) == finish(e),
        f.0 == VerifyStage::FetchKel ==> flow_step(f, EventView::KelFetched(sn, Err(e))) == finish(e),
        f.0 == VerifyStage::FetchTel ==> flow_step(f, EventView::TelFetched(Err(e))) == finish(e),
{
}

/// The window of a key event log is a run of consecutive messages of it, in
/// their order, and holds at most `limit + 1` of them.
pub proof fn law_window_is_slice<T>(msgs: Seq<T>, from: Option<u64>, limit: Option<u64>)
    ensures
        exists|a: int, b: int|
            0 <= a <= b <= msgs.len() && #[trigger] kel_window(msgs, from, limit) == msgs.subrange(a, b),
        limit matches Some(l) ==> kel_window(msgs, from, limit).len() <= l + 1,
{
    let a: int = match from {
        Some(f) => if f < msgs.len() { f as int } else { msgs.len() as int },
        None => 0,
    };
    let rest = skip_prefix(msgs, from);
    assert(rest =~= msgs.subrange(a, msgs.len() as int));
    let b: int = match limit {
        Some(l) => if l + 1 < rest.len() { a + l + 1 } else { msgs.len() as int },
        None => msgs.len() as int,
    };
    assert(kel_window(msgs, from, limit) =~= msgs.subrange(a, b));
}

/// Without `from` and `limit` the whole log is processed.
pub proof fn law_window_whole<T>(msgs: Seq<T>)
    ensures
        kel_window(msgs, None, None) == msgs,
{
}

/// Skipping `from` messages and then keeping `limit + 1` is the same as
/// keeping the first `from + limit + 1` messages and then skipping `from`.
pub proof fn law_window_commutes<T>(msgs: Seq<T>, from: u64, limit: u64)
    requires
        from + limit + 1 <= msgs.len(),
    ensures
        kel_window(msgs, Some(from), Some(limit)) == msgs.take(from + limit + 1).skip(from as int),
{
    assert(kel_window(msgs, Some(from), Some(limit)) =~= msgs.take(from + limit + 1).skip(from as int));
}

/// The pause after a refused query starts at one second and doubles with
/// each further refusal; a query that is refused every time pauses
/// 1 + 2 + 4 + 8 + 16 = 31 seconds in all over its five requests.
pub proof fn law_backoff_schedule(n: nat)
    ensures
        backoff_delay(0) == 1000,
        backoff_delay(n + 1) == 2 * backoff_delay(n),
        backoff_delay(0) + backoff_delay(1) + backoff_delay(2) + backoff_delay(3) + backoff_delay(4) == 31000,
        MAX_ATTEMPTS == 5,
{
    reveal_with_fuel(backoff_delay, 5);
}

/// When the issuer's key state was already known before the query, the
/// first message of the fetched log is not processed again; otherwise the
/// whole fetched log is processed.
pub proof fn law_known_issuer_skips_first(f: FlowView, sn: Option<u64>, msgs: Seq<Message>)
    requires
        f.0 == VerifyStage::FetchKel,
    ensures
        sn is Some ==> flow_step(f, EventView::KelFetched(sn, Ok(Ok(msgs))))
            == (VerifyStage::ProcessKel, ActionView::ProcessKel(if msgs.len() > 0 { msgs.skip(1) } else { msgs })),
        sn is None ==> flow_step(f, EventView::KelFetched(sn, Ok(Ok(msgs))))
            == (VerifyStage::ProcessKel, ActionView::ProcessKel(msgs)),
{
    assert(kel_window(msgs, Some(1u64), None) =~= (if msgs.len() > 0 { msgs.skip(1) } else { msgs }));
}

/// A query never sends more than five requests, gives up only after the
/// fifth, and the pause that the next refusal brings is the one the
/// schedule gives for the refusals so far.
pub proof fn law_query_attempts_bounded(b: Backoff)
    requires
        b.wf(),
    ensures
        b@.0 <= 5,
        b@.2 == PollPhase::Exhausted ==> b@.0 == 5,
        b@.1 == backoff_delay(b.failures()),
{
}

/// Every identifier that a verification hands on comes from the attestation
/// under verification: the state lookups name its digest, the key event
/// log query its issuer, and the transaction log query its registry and its
/// digest.
pub proof fn law_queries_use_attestation(message: Seq<u8>, f: FlowView)
    ensures
        attestation_of_message(message) is Ok && attestation_of_message(message)->Ok_0.0 is Some
            && said_check(attestation_of_message(message)->Ok_0.0->Some_0) is Ok
            ==> flow_start(message) == (VerifyStage::LookupInitial, ActionView::LookupVcState(
                attestation_of_message(message)->Ok_0.0->Some_0)),
        f.0 == VerifyStage::ResolveOobis && prefix_check(f.1.1) is Ok
            ==> flow_step(f, EventView::OobisResolved(Ok(()))) == (VerifyStage::FetchKel, ActionView::FetchKel(f.1.1)),
        f.0 == VerifyStage::ProcessKel && said_check(f.1.2) is Ok
            ==> flow_step(f, EventView::KelProcessed(Ok(()))) == (VerifyStage::FetchTel, ActionView::FetchTel(f.1.2, f.1.0->Some_0)),
        f.0 == VerifyStage::ProcessTel
            ==> flow_step(f, EventView::TelProcessed(Ok(()))) == (VerifyStage::LookupFinal, ActionView::LookupVcState(f.1.0->Some_0)),
{
}

/// An inception event commits its current key as transferable and its next
/// key as non-transferable, and names no witnesses.
pub proof fn law_inception_key_kinds(current: Seq<u8>, next: Seq<u8>)
    ensures
        inception_of(current, next) matches Ok(ev) ==> exists|k: Seq<u8>, nk: Seq<u8>|
            inception_event_of((KeyKind::Ed25519Transferable, k), (KeyKind::Ed25519NonTransferable, nk), Seq::empty(), 0)
                == Some(ev),
{
    if let Ok(ev) = inception_of(current, next) {
        let nk = crate::inception::seed_public_key(next)->Ok_0;
        let k = crate::inception::seed_public_key(current)->Ok_0;
        assert(inception_event_of((KeyKind::Ed25519Transferable, k), (KeyKind::Ed25519NonTransferable, nk), Seq::empty(), 0) == Some(ev));
    }
}

/// What a state lookup answers for the text `text` when the log answers
/// `lookup`: the text is checked as a SAID first (`check_vc_said`), then
/// the log's answer is turned into a state (`vc_state_from_lookup`).
pub open spec fn state_lookup(text: Seq<char>, lookup: Result<Option<TelStatus>, Seq<char>>) -> Result<VcState, ErrorView> {
    match said_check(text) {
        Err(x) => Err(ErrorView::InvalidInput("invalid prefix: "@ + x)),
        Ok(_) => match lookup {
            Ok(t) => Ok(vc_state_spec(t)),
            Err(e) => Err(ErrorView::Controller(e)),
        },
    }
}

/// Looking up a credential's state twice, with the log unchanged in
/// between, answers the same both times: the answer depends on the text
/// and the log's answer alone. A text that is no SAID is refused before
/// the log is asked.
pub proof fn law_state_lookup_repeatable(
    text: Seq<char>,
    first: Result<Option<TelStatus>, Seq<char>>,
    second: Result<Option<TelStatus>, Seq<char>>,
)
    requires
        first == second,
    ensures
        state_lookup(text, first) == state_lookup(text, second),
        said_check(text) is Err ==> state_lookup(text, first) == state_lookup(text, Ok(None)),
{
}

/// The message of every error is the fixed text of its kind, followed by
/// its detail where it has one.
pub proof fn law_error_messages(s: Seq<char>)
    ensures
        error_message(ErrorView::Url(s)) == "invalid URL: "@ + s,
        error_message(ErrorView::Network(s)) == "network request failed: "@ + s,
        error_message(ErrorView::Json(s)) == "JSON (de)serialization failed: "@ + s,
        error_message(ErrorView::Cbor(s)) == "CBOR deserialization failed: "@ + s,
        error_message(ErrorView::Cesr(s)) == "CESR processing failed: "@ + s,
        error_message(ErrorView::Signing(s)) == "signing failed: "@ + s,
        error_message(ErrorView::Controller(s)) == "controller error: "@ + s,
        error_message(ErrorView::Database(s)) == "database error: "@ + s,
        error_message(ErrorView::InvalidInput(s)) == "invalid input: "@ + s,
        error_message(ErrorView::IdentifierNotFound(s)) == "identifier not found: "@ + s,
        error_message(ErrorView::MissingSaid) == "attestation does not contain a SAID digest"@,
        error_message(ErrorView::WatcherNotSet) == "watcher for identifier is not configured"@,
        error_message(ErrorView::UnsupportedPayload(s)) == s + " payload format is not supported"@,
{
}

/// Attestation JSON written in ASCII without `\u` escapes is always handed
/// to the attestation reader, whatever other escapes it holds.
pub proof fn law_plain_ascii_json_is_read(b: Seq<u8>)
    requires
        plain_ascii(b),
    ensures
        json_versions_safe(b),
{
    assert forall|i: int| #[trigger] closing(b, i) implies !crate::json_scan::version_may_be_cut(
        token(b, i),
        lex(b, i as nat).has_bs,
        lex(b, i as nat).wide,
    ) by {
        lemma_plain_ascii_narrow(b, i as nat);
        crate::json_scan::lemma_lex_shape(b, i as nat);
        let t = token(b, i);
        if t.len() == 17 {
            assert(t[10] == b[lex(b, i as nat).start + 10int]);
        }
    }
}

/// The answer of a verification is the state that the last lookup finds,
/// whatever the state before: "verified" and "issued" for an issued
/// credential, "revoked" for a revoked one, and "not issued" for one that
/// the log does not know or knows as not issued. A failed lookup ends it
/// with the controller's failure.
pub proof fn law_final_answer_is_looked_up_state(f: FlowView, t: Option<TelStatus>, e: Seq<char>)
    requires
        f.0 == VerifyStage::LookupFinal,
    ensures
        flow_step(f, EventView::StateLooked(Ok(t))) == (
            VerifyStage::Done,
            ActionView::Finish(Ok(
                if t == Some(TelStatus::Issued) {
                    (true, "issued"@)
                } else if t == Some(TelStatus::Revoked) {
                    (false, "revoked"@)
                } else {
                    (false, "not issued"@)
                },
            )),
        ),
        flow_step(f, EventView::StateLooked(Err(e))) == (VerifyStage::Done, ActionView::Finish(Err(ErrorView::Controller(e)))),
{
}

/// Before the watcher is contacted, only a credential that the log holds
/// as revoked is answered at once; an issued, not issued or unknown one
/// goes on to the introductions, so that a revocation that the watcher
/// knows of is seen. A failed lookup ends the verification with the
/// controller's failure.
pub proof fn law_only_revoked_answers_at_once(f: FlowView, t: Option<TelStatus>, e: Seq<char>)
    requires
        f.0 == VerifyStage::LookupInitial,
    ensures
        t != Some(TelStatus::Revoked) ==> flow_step(f, EventView::StateLooked(Ok(t))) == (VerifyStage::ReadOobis, ActionView::ReadOobis),
        flow_step(f, EventView::StateLooked(Ok(Some(TelStatus::Revoked)))) == (
            VerifyStage::Done,
            ActionView::Finish(Ok((false, "revoked"@))),
        ),
        flow_step(f, EventView::StateLooked(Err(e))) == (VerifyStage::Done, ActionView::Finish(Err(ErrorView::Controller(e)))),
{
}

/// A log that the controller cannot process, or an introduction list that
/// cannot be read, ends the verification with that failure: the key event
/// log and the transaction log failures as controller errors, the list as
/// invalid input.
pub proof fn law_processing_failures_propagate(f: FlowView, e: Seq<char>)
    ensures
        f.0 == VerifyStage::ProcessKel ==> flow_step(f, EventView::KelProcessed(Err(e)))
            == (VerifyStage::Done, ActionView::Finish(Err(ErrorView::Controller(e)))),
        f.0 == VerifyStage::ProcessTel ==> flow_step(f, EventView::TelProcessed(Err(e)))
            == (VerifyStage::Done, ActionView::Finish(Err(ErrorView::Controller(e)))),
        f.0 == VerifyStage::ReadOobis ==> flow_step(f, EventView::OobisRead(Err(e)))
            == (VerifyStage::Done, ActionView::Finish(Err(ErrorView::InvalidInput("invalid OOBI array: "@ + e)))),
{
}

/// The attestation reader is refused exactly the JSON texts in which a
/// string without escape is a version string cut inside a character, or a
/// string with an escape may read as one: it may hold a character outside
/// ASCII, is 17 to 102 bytes long as written, and ends with `_`, `f` or
/// `F`. Characters outside ASCII elsewhere never refuse a text.
pub proof fn law_versions_guard_exact(b: Seq<u8>)
    ensures
        json_versions_safe(b) <==> forall|i: int|
            #[trigger] closing(b, i) ==> if lex(b, i as nat).has_bs {
                !(lex(b, i as nat).wide && 17 <= token(b, i).len() <= 102 && (token(b, i).last() == 0x5f
                    || token(b, i).last() == 0x66 || token(b, i).last() == 0x46))
            } else {
                !version_cut(token(b, i))
            },
{
}

/// JSON without escapes is handed to the attestation reader unless some
/// text between two quotes is 17 bytes long, ends with `_` and has a
/// continuation byte at its eleventh byte: characters outside ASCII
/// anywhere else, however many, never refuse it.
pub proof fn law_unescaped_json_is_read(b: Seq<u8>)
    requires
        forall|k: int| 0 <= k < b.len() ==> b[k] != 0x5c,
        forall|j: int|
            0 <= j && j + 18 < b.len() && b[j] == 0x22 && b[j + 18] == 0x22 && b[j + 17] == 0x5f
                ==> !is_cont(#[trigger] b[j + 11]),
    ensures
        json_versions_safe(b),
{
    assert forall|i: int| #[trigger] closing(b, i) implies !crate::json_scan::version_may_be_cut(
        token(b, i),
        lex(b, i as nat).has_bs,
        lex(b, i as nat).wide,
    ) by {
        lemma_lex_string_start(b, i as nat);
        let st = lex(b, i as nat).start;
        let t = token(b, i);
        if version_cut(t) {
            let j = st - 1;
            assert(t.len() == 17);
            assert(i == st + 17);
            assert(t[10] == b[j + 11]);
            assert(t[16] == b[j + 17]);
            assert(b[j] == 0x22 && b[j + 18] == 0x22);
        }
    }
}

/// The steps between the lookups: reading the introductions needs the
/// identifier's watcher and then posts them to its `resolve` endpoint; an
/// issuer that is no identifier prefix, or a registry that is no SAID,
/// stops the verification as invalid input; a key event log that cannot be
/// read stops it as a CESR error; a fetched transaction log is processed
/// as fetched.
pub proof fn law_intermediate_steps(f: FlowView, tel: Seq<char>, x: Seq<char>, sn: Option<u64>)
    ensures
        f.0 == VerifyStage::ReadOobis && f.2 is None ==> flow_step(f, EventView::OobisRead(Ok(())))
            == (VerifyStage::Done, ActionView::Finish(Err(ErrorView::WatcherNotSet))),
        f.0 == VerifyStage::ReadOobis && f.2 is Some ==> flow_step(f, EventView::OobisRead(Ok(())))
            == (VerifyStage::ResolveOobis, ActionView::ResolveOobis(f.2->Some_0 + "resolve"@)),
        f.0 == VerifyStage::ResolveOobis && prefix_check(f.1.1) == Err::<(), Seq<char>>(x)
            ==> flow_step(f, EventView::OobisResolved(Ok(())))
            == (VerifyStage::Done, ActionView::Finish(Err(ErrorView::InvalidInput("failed to parse issuer ID: "@ + x)))),
        f.0 == VerifyStage::FetchKel ==> flow_step(f, EventView::KelFetched(sn, Ok(Err(x))))
            == (VerifyStage::Done, ActionView::Finish(Err(ErrorView::Cesr("failed to parse KEL: "@ + x)))),
        f.0 == VerifyStage::ProcessKel && said_check(f.1.2) == Err::<(), Seq<char>>(x)
            ==> flow_step(f, EventView::KelProcessed(Ok(())))
            == (VerifyStage::Done, ActionView::Finish(Err(ErrorView::InvalidInput("invalid registry identifier: "@ + x)))),
        f.0 == VerifyStage::FetchTel ==> flow_step(f, EventView::TelFetched(Ok(tel)))
            == (VerifyStage::ProcessTel, ActionView::ProcessTel(tel)),
{
}

/// The location reader is refused exactly the JSON texts in which the
/// string that may be read as the `eid` (the first at the top level, or
/// one after a top-level string that may read `eid`) is, without escape, an
/// identifier whose code the readers cut, or, with an escape, may read as
/// one: it starts with `0`, `1` or `\u003`, and may hold a character
/// outside ASCII or is shorter than 24 bytes as written.
pub proof fn law_eid_guard_exact(b: Seq<u8>)
    ensures
        json_eid_safe(b) <==> forall|i: int|
            #[trigger] closing(b, i) && lex(b, i as nat).depth == 1 && (lex(b, i as nat).pending || !lex(b, i as nat).seen)
                ==> if lex(b, i as nat).has_bs {
                !(token(b, i).len() > 0 && (token(b, i)[0] == 0x30 || token(b, i)[0] == 0x31 || (token(b, i).len() >= 5
                    && token(b, i)[0] == 0x5c && token(b, i)[1] == 0x75 && token(b, i)[2] == 0x30 && token(b, i)[3]
                    == 0x30 && token(b, i)[4] == 0x33)) && (lex(b, i as nat).wide || token(b, i).len() < 24))
            } else {
                !code_cut(token(b, i))
            },
{
}

/// A location written without escapes is handed to the location reader
/// unless one of its quoted texts is an identifier whose code the readers
/// cut: fields other than the identifier, escapes aside, never refuse it
/// for what they hold.
pub proof fn law_unescaped_location_is_read(b: Seq<u8>)
    requires
        forall|k: int| 0 <= k < b.len() ==> b[k] != 0x5c,
        forall|j: int, k: int|
            0 <= j < k < b.len() && #[trigger] b[j] == 0x22 && #[trigger] b[k] == 0x22 && (forall|m: int| j < m < k ==> b[m] != 0x22)
                ==> !code_cut(b.subrange(j + 1, k)),
    ensures
        json_eid_safe(b),
{
    assert forall|i: int|
        #[trigger] closing(b, i) && lex(b, i as nat).depth == 1 && (lex(b, i as nat).pending || !lex(b, i as nat).seen)
        implies !crate::json_scan::code_may_be_cut(token(b, i), lex(b, i as nat).has_bs, lex(b, i as nat).wide) by {
        lemma_lex_string_start(b, i as nat);
        let j = lex(b, i as nat).start - 1;
        assert(b[j] == 0x22 && b[i] == 0x22);
        assert(forall|m: int| j < m < i ==> b[m] != 0x22);
        assert(token(b, i) == b.subrange(j + 1, i));
    }
}

/// Where a verification starts: an unreadable attestation ends it with the
/// reader's failure, one without a digest with the missing-SAID error, and
/// one whose digest is no SAID as invalid input.
pub proof fn law_start_failures(message: Seq<u8>, x: Seq<char>)
    ensures
        attestation_of_message(message) is Err ==> flow_start(message) == (
            VerifyStage::Done,
            ActionView::Finish(Err(attestation_of_message(message)->Err_0)),
        ),
        attestation_of_message(message) is Ok && attestation_of_message(message)->Ok_0.0 is None ==> flow_start(message)
            == (VerifyStage::Done, ActionView::Finish(Err(ErrorView::MissingSaid))),
        attestation_of_message(message) is Ok && attestation_of_message(message)->Ok_0.0 is Some
            && said_check(attestation_of_message(message)->Ok_0.0->Some_0) == Err::<(), Seq<char>>(x)
            ==> flow_start(message) == (VerifyStage::Done, ActionView::Finish(Err(ErrorView::InvalidInput("invalid prefix: "@ + x)))),
{
}

} // verus!
