use vstd::prelude::*;

use crate::attestation::{attestation_of_message, decode_attestation, AttestationInfo, AttestationView};
use crate::endpoint::resolve_endpoint;
use crate::error::{ErrorView, WasmError};
use crate::ids::{check_issuer, check_registry_id, check_vc_said, prefix_check, said_check};
use crate::kel::{kel_error, kel_window, resume_from, window_parsed_kel};
use crate::vc::{status_text, vc_state_from_lookup, vc_state_spec, TelStatus, VcState, VerificationResult};
use keri_core::event_message::signed_event_message::Message;
use vstd::string::StringSliceAdditionalSpecFns;

verus! {

/// Where the verification of a credential stands.
#[derive(Clone, Copy, Debug, PartialEq, Eq, Structural)]
pub enum VerifyStage {
    /// Waiting for the credential's state as the local log knows it.
    LookupInitial,
    /// Waiting for the caller's out-of-band introductions to be read.
    ReadOobis,
    /// Waiting for the introductions to be posted to the watcher.
    ResolveOobis,
    /// Waiting for the issuer's key event log from the watcher.
    FetchKel,
    /// Waiting for the fetched key events to be processed.
    ProcessKel,
    /// Waiting for the credential's transaction log from the watcher.
    FetchTel,
    /// Waiting for the fetched transaction events to be processed.
    ProcessTel,
    /// Waiting for the credential's state after the update.
    LookupFinal,
    /// The verification has finished.
    Done,
}

/// What the driver of a verification reports back.
pub enum VerifyEvent {
    /// The controller's answer to a state lookup.
    StateLooked(Result<Option<TelStatus>, String>),
    /// Whether the caller's introductions could be read, with the reading
    /// error's text.
    OobisRead(Result<(), String>),
    /// Whether every introduction was posted.
    OobisResolved(Result<(), WasmError>),
    /// The issuer's sequence number as known before the query, and the
    /// messages read from the key event log that the watcher sent (or the
    /// reader's error text).
    KelFetched { known_sn: Option<u64>, kel: Result<Result<Vec<Message>, String>, WasmError> },
    /// The controller's answer to processing the key events.
    KelProcessed(Result<(), String>),
    /// The transaction log that the watcher sent.
    TelFetched(Result<String, WasmError>),
    /// The controller's answer to processing the transaction log.
    TelProcessed(Result<(), String>),
}

/// What the driver of a verification does next.
pub enum VerifyAction {
    /// Look up the state of the credential with this SAID (checked text).
    LookupVcState(String),
    /// Read the caller's out-of-band introductions.
    ReadOobis,
    /// Post each introduction to this URL.
    ResolveOobis(String),
    /// Ask the watcher for the key event log of this issuer (checked
    /// identifier prefix text).
    FetchKel(String),
    /// Have the controller process these key events.
    ProcessKel(Vec<Message>),
    /// Ask the watcher for the transaction log of credential `vc` in
    /// registry `registry` (both checked SAID texts).
    FetchTel { registry: String, vc: String },
    /// Have the controller process this transaction log.
    ProcessTel(String),
    /// The verification's answer.
    Finish(Result<VerificationResult, WasmError>),
}

/// An event with its texts taken as character sequences.
pub ghost enum EventView {
    StateLooked(Result<Option<TelStatus>, Seq<char>>),
    OobisRead(Result<(), Seq<char>>),
    OobisResolved(Result<(), ErrorView>),
    KelFetched(Option<u64>, Result<Result<Seq<Message>, Seq<char>>, ErrorView>),
    KelProcessed(Result<(), Seq<char>>),
    TelFetched(Result<Seq<char>, ErrorView>),
    TelProcessed(Result<(), Seq<char>>),
}

/// An action with its texts taken as character sequences.
pub ghost enum ActionView {
    LookupVcState(Seq<char>),
    ReadOobis,
    ResolveOobis(Seq<char>),
    FetchKel(Seq<char>),
    ProcessKel(Seq<Message>),
    FetchTel(Seq<char>, Seq<char>),
    ProcessTel(Seq<char>),
    Finish(Result<(bool, Seq<char>), ErrorView>),
}

pub open spec fn unit_result_view(r: Result<(), WasmError>) -> Result<(), ErrorView> {
    match r {
        Ok(_) => Ok(()),
        Err(e) => Err(e@),
    }
}

pub open spec fn text_result_view(r: Result<String, WasmError>) -> Result<Seq<char>, ErrorView> {
    match r {
        Ok(s) => Ok(s@),
        Err(e) => Err(e@),
    }
}

pub open spec fn parsed_kel_view(r: Result<Result<Vec<Message>, String>, WasmError>) -> Result<Result<Seq<Message>, Seq<char>>, ErrorView> {
    match r {
        Ok(Ok(m)) => Ok(Ok(m@)),
        Ok(Err(e)) => Ok(Err(e@)),
        Err(e) => Err(e@),
    }
}

pub open spec fn string_error_view<T>(r: Result<T, String>) -> Result<T, Seq<char>> {
    match r {
        Ok(t) => Ok(t),
        Err(e) => Err(e@),
    }
}

impl View for VerifyEvent {
    type V = EventView;

    open spec fn view(&self) -> EventView {
        match self {
            VerifyEvent::StateLooked(r) => EventView::StateLooked(string_error_view(*r)),
            VerifyEvent::OobisRead(r) => EventView::OobisRead(string_error_view(*r)),
            VerifyEvent::OobisResolved(r) => EventView::OobisResolved(unit_result_view(*r)),
            VerifyEvent::KelFetched { known_sn, kel } => EventView::KelFetched(*known_sn, parsed_kel_view(*kel)),
            VerifyEvent::KelProcessed(r) => EventView::KelProcessed(string_error_view(*r)),
            VerifyEvent::TelFetched(r) => EventView::TelFetched(text_result_view(*r)),
            VerifyEvent::TelProcessed(r) => EventView::TelProcessed(string_error_view(*r)),
        }
    }
}

impl View for VerifyAction {
    type V = ActionView;

    open spec fn view(&self) -> ActionView {
        match self {
            VerifyAction::LookupVcState(d) => ActionView::LookupVcState(d@),
            VerifyAction::ReadOobis => ActionView::ReadOobis,
            VerifyAction::ResolveOobis(u) => ActionView::ResolveOobis(u@),
            VerifyAction::FetchKel(i) => ActionView::FetchKel(i@),
            VerifyAction::ProcessKel(m) => ActionView::ProcessKel(m@),
            VerifyAction::FetchTel { registry, vc } => ActionView::FetchTel(registry@, vc@),
            VerifyAction::ProcessTel(t) => ActionView::ProcessTel(t@),
            VerifyAction::Finish(Ok(r)) => ActionView::Finish(Ok(r@)),
            VerifyAction::Finish(Err(e)) => ActionView::Finish(Err(e@)),
        }
    }
}

/// The verification of one credential message, driven event by event.
pub struct VerifyFlow {
    stage: VerifyStage,
    att: AttestationInfo,
    watcher: Option<String>,
}

/// The stage, the attestation under verification, and the identifier's
/// watcher URL.
pub type FlowView = (VerifyStage, AttestationView, Option<Seq<char>>);

impl View for VerifyFlow {
    type V = FlowView;

    closed spec fn view(&self) -> FlowView {
        (
            self.stage,
            self.att@,
            match self.watcher {
                Some(w) => Some(w@),
                None => None,
            },
        )
    }
}

/// The answer that a looked-up state gives.
pub open spec fn lookup_state(l: Result<Option<TelStatus>, Seq<char>>) -> Result<VcState, ErrorView> {
    match l {
        Ok(t) => Ok(vc_state_spec(t)),
        Err(e) => Err(ErrorView::Controller(e)),
    }
}

/// The verification answer for a credential state.
pub open spec fn result_of(s: VcState) -> (bool, Seq<char>) {
    (s == VcState::Issued, status_text(s))
}

pub open spec fn finish(e: ErrorView) -> (VerifyStage, ActionView) {
    (VerifyStage::Done, ActionView::Finish(Err(e)))
}

/// Where a verification of `message` starts: the attestation is read, and
/// the state of the credential that its digest names is looked up.
pub open spec fn flow_start(message: Seq<u8>) -> (VerifyStage, ActionView) {
    match attestation_of_message(message) {
        Err(e) => finish(e),
        Ok(a) => match a.0 {
            None => finish(ErrorView::MissingSaid),
            Some(d) => match said_check(d) {
                Err(x) => finish(ErrorView::InvalidInput("invalid prefix: "@ + x)),
                Ok(_) => (VerifyStage::LookupInitial, ActionView::LookupVcState(d)),
            },
        },
    }
}

/// Which event each stage waits for.
pub open spec fn accepts(stage: VerifyStage, ev: EventView) -> bool {
    match (stage, ev) {
        (VerifyStage::LookupInitial, EventView::StateLooked(_)) => true,
        (VerifyStage::ReadOobis, EventView::OobisRead(_)) => true,
        (VerifyStage::ResolveOobis, EventView::OobisResolved(_)) => true,
        (VerifyStage::FetchKel, EventView::KelFetched(_, _)) => true,
        (VerifyStage::ProcessKel, EventView::KelProcessed(_)) => true,
        (VerifyStage::FetchTel, EventView::TelFetched(_)) => true,
        (VerifyStage::ProcessTel, EventView::TelProcessed(_)) => true,
        (VerifyStage::LookupFinal, EventView::StateLooked(_)) => true,
        _ => false,
    }
}

/// One step of a verification. A failure finishes it with that failure; a
/// credential already known as revoked finishes it at once; otherwise the
/// introductions are posted to the watcher, the issuer's key event log and
/// the credential's transaction log are fetched and processed (the first
/// key event skipped when the issuer's state was already known), and the
/// answer is the credential's state after that.
pub open spec fn flow_step(f: FlowView, ev: EventView) -> (VerifyStage, ActionView) {
    let att = f.1;
    match (f.0, ev) {
        (VerifyStage::LookupInitial, EventView::StateLooked(l)) => match lookup_state(l) {
            Err(e) => finish(e),
            Ok(VcState::Revoked) => (VerifyStage::Done, ActionView::Finish(Ok(result_of(VcState::Revoked)))),
            Ok(_) => (VerifyStage::ReadOobis, ActionView::ReadOobis),
        },
        (VerifyStage::ReadOobis, EventView::OobisRead(r)) => match r {
            Err(t) => finish(ErrorView::InvalidInput("invalid OOBI array: "@ + t)),
            Ok(_) => match f.2 {
                None => finish(ErrorView::WatcherNotSet),
                Some(w) => (VerifyStage::ResolveOobis, ActionView::ResolveOobis(w + "resolve"@)),
            },
        },
        (VerifyStage::ResolveOobis, EventView::OobisResolved(r)) => match r {
            Err(e) => finish(e),
            Ok(_) => match prefix_check(att.1) {
                Err(x) => finish(ErrorView::InvalidInput("failed to parse issuer ID: "@ + x)),
                Ok(_) => (VerifyStage::FetchKel, ActionView::FetchKel(att.1)),
            },
        },
        (VerifyStage::FetchKel, EventView::KelFetched(sn, k)) => match k {
            Err(e) => finish(e),
            Ok(Err(x)) => finish(kel_error(x)),
            Ok(Ok(msgs)) => (
                VerifyStage::ProcessKel,
                ActionView::ProcessKel(kel_window(msgs, if sn is Some { Some(1u64) } else { None }, None)),
            ),
        },
        (VerifyStage::ProcessKel, EventView::KelProcessed(r)) => match r {
            Err(e) => finish(ErrorView::Controller(e)),
            Ok(_) => match said_check(att.2) {
                Err(x) => finish(ErrorView::InvalidInput("invalid registry identifier: "@ + x)),
                Ok(_) => (VerifyStage::FetchTel, ActionView::FetchTel(att.2, att.0->Some_0)),
            },
        },
        (VerifyStage::FetchTel, EventView::TelFetched(t)) => match t {
            Err(e) => finish(e),
            Ok(tel) => (VerifyStage::ProcessTel, ActionView::ProcessTel(tel)),
        },
        (VerifyStage::ProcessTel, EventView::TelProcessed(r)) => match r {
            Err(e) => finish(ErrorView::Controller(e)),
            Ok(_) => (VerifyStage::LookupFinal, ActionView::LookupVcState(att.0->Some_0)),
        },
        (VerifyStage::LookupFinal, EventView::StateLooked(l)) => match lookup_state(l) {
            Err(e) => finish(e),
            Ok(s) => (VerifyStage::Done, ActionView::Finish(Ok(result_of(s)))),
        },
        // No step takes an event that its stage does not wait for.
        _ => (f.0, ActionView::ReadOobis),
    }
}

impl VerifyFlow {
    /// A flow that has not finished holds an attestation with a digest that
    /// reads as a SAID.
    pub open spec fn wf(&self) -> bool {
        self@.0 != VerifyStage::Done ==> {
            &&& self@.1.0 is Some
            &&& said_check(self@.1.0->Some_0) is Ok
        }
    }

    /// The attestation's digest text.
    fn digest_text(&self) -> (d: String)
        requires
            self.wf(),
            self@.0 != VerifyStage::Done,
        ensures
            d@ == self@.1.0->Some_0,
    {
        match &self.att.digest {
            Some(d) => d.clone(),
            None => {
                assert(false);
                String::new()
            },
        }
    }

    fn finish(&mut self, e: WasmError) -> (a: VerifyAction)
        ensures
            final(self)@ == (VerifyStage::Done, old(self)@.1, old(self)@.2),
            a@ == ActionView::Finish(Err(e@)),
    {
        self.stage = VerifyStage::Done;
        VerifyAction::Finish(Err(e))
    }

    /// Starts verifying a CESR credential message for an identifier whose
    /// watcher is at `watcher` (if it has one).
    pub fn start(message: &str, watcher: Option<String>) -> (r: (VerifyFlow, VerifyAction))
        ensures
            r.0.wf(),
            (r.0@.0, r.1@) == flow_start(message.spec_bytes()),
            r.0@.2 == (match watcher { Some(w) => Some(w@), None => None::<Seq<char>> }),
            attestation_of_message(message.spec_bytes()) matches Ok(a) ==> r.0@.1 == a,
    {
        match decode_attestation(message) {
            Err(e) => {
                let att = AttestationInfo {
                    digest: None,
                    issuer: String::new(),
                    registry_identifier: String::new(),
                };
                (VerifyFlow { stage: VerifyStage::Done, att, watcher }, VerifyAction::Finish(Err(e)))
            },
            Ok(att) => {
                let parsed = match &att.digest {
                    None => None,
                    Some(d) => Some(check_vc_said(d.as_str())),
                };
                match parsed {
                    None => (
                        VerifyFlow { stage: VerifyStage::Done, att, watcher },
                        VerifyAction::Finish(Err(WasmError::MissingSaid)),
                    ),
                    Some(Err(e)) => (
                        VerifyFlow { stage: VerifyStage::Done, att, watcher },
                        VerifyAction::Finish(Err(e)),
                    ),
                    Some(Ok(said)) => (
                        VerifyFlow { stage: VerifyStage::LookupInitial, att, watcher },
                        VerifyAction::LookupVcState(said),
                    ),
                }
            },
        }
    }

    /// Takes the driver's report on the last action and decides the next.
    pub fn step(&mut self, event: VerifyEvent) -> (a: VerifyAction)
        requires
            old(self).wf(),
            accepts(old(self)@.0, event@),
        ensures
            final(self).wf(),
            (final(self)@.0, a@) == flow_step(old(self)@, event@),
            final(self)@.1 == old(self)@.1,
            final(self)@.2 == old(self)@.2,
    {
        match event {
            VerifyEvent::StateLooked(l) => {
                let initial = match self.stage {
                    VerifyStage::LookupInitial => true,
                    _ => false,
                };
                match vc_state_from_lookup(l) {
                    Err(e) => self.finish(e),
                    Ok(s) => {
                        if initial {
                            match s {
                                VcState::Revoked => {
                                    self.stage = VerifyStage::Done;
                                    VerifyAction::Finish(Ok(VerificationResult::from(VcState::Revoked)))
                                },
                                _ => {
                                    self.stage = VerifyStage::ReadOobis;
                                    VerifyAction::ReadOobis
                                },
                            }
                        } else {
                            self.stage = VerifyStage::Done;
                            VerifyAction::Finish(Ok(VerificationResult::from(s)))
                        }
                    },
                }
            },
            VerifyEvent::OobisRead(r) => match r {
                Err(t) => {
                    let mut s = String::from_str("invalid OOBI array: ");
                    s.append(t.as_str());
                    self.finish(WasmError::InvalidInput(s))
                },
                Ok(()) => {
                    let endpoint = match &self.watcher {
                        None => None,
                        Some(w) => Some(resolve_endpoint(w.as_str())),
                    };
                    match endpoint {
                        None => self.finish(WasmError::WatcherNotSet),
                        Some(u) => {
                            self.stage = VerifyStage::ResolveOobis;
                            VerifyAction::ResolveOobis(u)
                        },
                    }
                },
            },
            VerifyEvent::OobisResolved(r) => match r {
                Err(e) => self.finish(e),
                Ok(()) => match check_issuer(self.att.issuer.as_str()) {
                    Err(e) => self.finish(e),
                    Ok(id) => {
                        self.stage = VerifyStage::FetchKel;
                        VerifyAction::FetchKel(id)
                    },
                },
            },
            VerifyEvent::KelFetched { known_sn, kel } => match kel {
                Err(e) => self.finish(e),
                Ok(parsed) => match window_parsed_kel(parsed, resume_from(known_sn), None) {
                    Err(e) => self.finish(e),
                    Ok(msgs) => {
                        self.stage = VerifyStage::ProcessKel;
                        VerifyAction::ProcessKel(msgs)
                    },
                },
            },
            VerifyEvent::KelProcessed(r) => match r {
                Err(e) => self.finish(WasmError::Controller(e)),
                Ok(()) => match check_registry_id(self.att.registry_identifier.as_str()) {
                    Err(e) => self.finish(e),
                    Ok(registry) => {
                        let vc = self.digest_text();
                        self.stage = VerifyStage::FetchTel;
                        VerifyAction::FetchTel { registry, vc }
                    },
                },
            },
            VerifyEvent::TelFetched(t) => match t {
                Err(e) => self.finish(e),
                Ok(tel) => {
                    self.stage = VerifyStage::ProcessTel;
                    VerifyAction::ProcessTel(tel)
                },
            },
            VerifyEvent::TelProcessed(r) => match r {
                Err(e) => self.finish(WasmError::Controller(e)),
                Ok(()) => {
                    let vc = self.digest_text();
                    self.stage = VerifyStage::LookupFinal;
                    VerifyAction::LookupVcState(vc)
                },
            },
        }
    }
}

} // verus!
