use vstd::prelude::*;

use crate::error::{ErrorView, WasmError};
use crate::keys::KeysConfig;

verus! {

/// The Ed25519 public key that a seed derives, or the text of the error
/// that deriving it gives.
pub uninterp spec fn seed_public_key(seed: Seq<u8>) -> Result<Seq<u8>, Seq<char>>;

/// How a public key is to be used in a key event.
#[derive(Clone, Copy, Debug, PartialEq, Eq, Structural)]
pub enum KeyKind {
    /// An Ed25519 key whose identifier can rotate it.
    Ed25519Transferable,
    /// An Ed25519 key that cannot be rotated.
    Ed25519NonTransferable,
}

/// A public key with its kind, its bytes taken as a sequence.
pub type KeyView = (KeyKind, Seq<u8>);

/// The inception event, in its serialization, of a non-delegated
/// identifier with the current key `key`, the next key `next`, the
/// witnesses `witnesses` and the witness threshold `threshold`; `None`
/// where generating it fails.
pub uninterp spec fn inception_event_of(key: KeyView, next: KeyView, witnesses: Seq<KeyView>, threshold: u64) -> Option<Seq<char>>;

/// A list of keys with their kinds, taken as sequences.
pub open spec fn keys_view(ks: Seq<(KeyKind, Vec<u8>)>) -> Seq<KeyView> {
    ks.map_values(|k: (KeyKind, Vec<u8>)| (k.0, k.1@))
}

/// A new identifier is made without witnesses, so with threshold 0.
pub const WITNESS_THRESHOLD: u64 = 0;

/// Derives the public key of an Ed25519 seed through
/// `keri_core::prefix::SeedPrefix::derive_key_pair`. Claimed: the key's
/// bytes, or the error's text, depend on the seed alone.
#[verifier::external_body]
fn derive_public_key(seed: &[u8]) -> (r: Result<Vec<u8>, String>)
    ensures
        match r {
            Ok(k) => seed_public_key(seed@) == Ok::<Seq<u8>, Seq<char>>(k@),
            Err(e) => seed_public_key(seed@) == Err::<Seq<u8>, Seq<char>>(e@),
        },
{
    keri_core::prefix::SeedPrefix::RandomSeed256Ed25519(seed.to_vec())
        .derive_key_pair()
        .map(|(public_key, _private_key)| public_key.key())
        .map_err(|e| e.to_string())
}

/// Generates an inception event through
/// `keri_core::actor::event_generator::incept`, converting each key to the
/// `BasicPrefix` of its kind, with no delegator. Claimed: the event, or its
/// failure, depends on the keys, their kinds, the witnesses and the
/// threshold alone.
#[verifier::external_body]
fn generate_inception(
    key: &[u8],
    key_kind: KeyKind,
    next: &[u8],
    next_kind: KeyKind,
    witnesses: &[(KeyKind, Vec<u8>)],
    threshold: u64,
) -> (r: Option<String>)
    ensures
        match r {
            Some(ev) => inception_event_of((key_kind, key@), (next_kind, next@), keys_view(witnesses@), threshold) == Some(ev@),
            None => inception_event_of((key_kind, key@), (next_kind, next@), keys_view(witnesses@), threshold) is None,
        },
{
    let prefix = |kind: KeyKind, k: &[u8]| match kind {
        KeyKind::Ed25519Transferable => keri_core::prefix::BasicPrefix::Ed25519(keri_core::keys::PublicKey::new(k.to_vec())),
        KeyKind::Ed25519NonTransferable => keri_core::prefix::BasicPrefix::Ed25519NT(keri_core::keys::PublicKey::new(k.to_vec())),
    };
    let witnesses = witnesses.iter().map(|(kind, k)| prefix(*kind, k)).collect();
    keri_core::actor::event_generator::incept(vec![prefix(key_kind, key)], vec![prefix(next_kind, next)], witnesses, threshold, None).ok()
}

/// The inception event of an identifier with the seeds `current` and
/// `next`, or the error that stops it: the next key is derived first, then
/// the current one, then the event is generated with the current key
/// transferable, the next key non-transferable, and no witnesses.
pub open spec fn inception_of(current: Seq<u8>, next: Seq<u8>) -> Result<Seq<char>, ErrorView> {
    match seed_public_key(next) {
        Err(e) => Err(ErrorView::Signing("failed to derive keys: "@ + e)),
        Ok(next_key) => match seed_public_key(current) {
            Err(e) => Err(ErrorView::Signing(e)),
            Ok(key) => match inception_event_of(
                (KeyKind::Ed25519Transferable, key),
                (KeyKind::Ed25519NonTransferable, next_key),
                Seq::empty(),
                WITNESS_THRESHOLD,
            ) {
                None => Err(ErrorView::Controller("inception event generation failed"@)),
                Some(ev) => Ok(ev),
            },
        },
    }
}

/// Builds the inception event that a new identifier signs.
pub fn prepare_inception(keys: &KeysConfig) -> (r: Result<String, WasmError>)
    ensures
        match r {
            Ok(ev) => inception_of(keys.current@, keys.next@) == Ok::<Seq<char>, ErrorView>(ev@),
            Err(e) => inception_of(keys.current@, keys.next@) == Err::<Seq<char>, ErrorView>(e@),
        },
{
    let next_key = match derive_public_key(keys.next.as_slice()) {
        Ok(k) => k,
        Err(e) => {
            let mut s = String::from_str("failed to derive keys: ");
            s.append(e.as_str());
            return Err(WasmError::Signing(s));
        },
    };
    let key = match derive_public_key(keys.current.as_slice()) {
        Ok(k) => k,
        Err(e) => return Err(WasmError::Signing(e)),
    };
    let witnesses: Vec<(KeyKind, Vec<u8>)> = Vec::new();
    proof {
        assert(keys_view(witnesses@) =~= Seq::<KeyView>::empty());
    }
    match generate_inception(
        key.as_slice(),
        KeyKind::Ed25519Transferable,
        next_key.as_slice(),
        KeyKind::Ed25519NonTransferable,
        witnesses.as_slice(),
        WITNESS_THRESHOLD,
    ) {
        Some(ev) => Ok(ev),
        None => Err(WasmError::Controller(String::from_str("inception event generation failed"))),
    }
}

} // verus!
