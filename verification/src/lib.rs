//! Verified core of the KERI / ACDC wasm bindings: error reporting,
//! credential status, KEL windowing, watcher routing, query back-off and the
//! credential verification flow.
use vstd::prelude::*;

pub mod attestation;
pub mod endpoint;
pub mod error;
pub mod identifier;
pub mod inception;
pub mod json_scan;
pub mod ids;
pub mod keys;
pub mod kel;
pub mod laws;
pub mod poll;
pub mod vc;
pub mod verify;
