use vstd::prelude::*;

verus! {

/// Length in bytes of an Ed25519 seed.
pub const SEED_LEN: usize = 32;

/// Draws a fresh Ed25519 signing key through
/// `ed25519_dalek::SigningKey::generate` with the operating system's random
/// source, and hands back its 32 secret bytes. Claimed: the seed is 32 bytes
/// long; its value is chance.
#[verifier::external_body]
fn random_ed25519_seed() -> (s: Vec<u8>)
    ensures
        s@.len() == SEED_LEN,
{
    ed25519_dalek::SigningKey::generate(&mut rand::rngs::OsRng).as_bytes().to_vec()
}

/// The seeds of a new identifier: the current signing key, and the next one
/// whose public key the inception event commits to.
pub struct KeysConfig {
    pub current: Vec<u8>,
    pub next: Vec<u8>,
}

impl Default for KeysConfig {
    /// Two freshly drawn Ed25519 seeds.
    fn default() -> (k: Self)
        ensures
            k.current@.len() == SEED_LEN,
            k.next@.len() == SEED_LEN,
    {
        let current = random_ed25519_seed();
        let next = random_ed25519_seed();
        KeysConfig { current, next }
    }
}

} // verus!
