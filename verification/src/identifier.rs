use vstd::prelude::*;

use crate::error::{ErrorView, WasmError};

verus! {

/// Renames an identifier locally once the database has taken the new alias:
/// a refused update leaves the alias as it was and reports the database's
/// error.
pub fn apply_alias(alias: &mut String, new_alias: String, stored: Result<(), String>) -> (r: Result<(), WasmError>)
    ensures
        match stored {
            Ok(_) => r is Ok && final(alias)@ == new_alias@,
            Err(e) => r matches Err(err) && err@ == ErrorView::Database(e@) && final(alias)@ == old(alias)@,
        },
{
    match stored {
        Ok(()) => {
            *alias = new_alias;
            Ok(())
        },
        Err(e) => Err(WasmError::Database(e)),
    }
}

/// The key event log of an identifier, or an identifier-not-found error
/// naming its prefix when the store holds none.
pub fn kel_or_not_found<T>(kel: Option<T>, prefix: String) -> (r: Result<T, WasmError>)
    ensures
        match kel {
            Some(k) => r == Ok::<T, WasmError>(k),
            None => r matches Err(e) && e@ == ErrorView::IdentifierNotFound(prefix@),
        },
{
    match kel {
        Some(k) => Ok(k),
        None => Err(WasmError::IdentifierNotFound(prefix)),
    }
}

/// The URL of an identifier's watcher, or the error that it has none.
pub fn watcher_url_or_err(watcher: Option<String>) -> (r: Result<String, WasmError>)
    ensures
        match watcher {
            Some(w) => r matches Ok(u) && u@ == w@,
            None => r matches Err(e) && e@ == ErrorView::WatcherNotSet,
        },
{
    match watcher {
        Some(w) => Ok(w),
        None => Err(WasmError::WatcherNotSet),
    }
}

/// The kind of an identifier prefix.
#[derive(Clone, Copy, Debug, PartialEq, Eq, Structural)]
pub enum PrefixKind {
    /// A public key itself.
    Basic,
    /// The digest of an inception event.
    SelfAddressing,
    /// A signature.
    SelfSigning,
}

/// How a query to a watcher is signed.
#[derive(Clone, Copy, Debug, PartialEq, Eq, Structural)]
pub enum QuerySigning {
    /// With the signer's public key beside the signature.
    NonTransferable,
    /// With the signer's identifier and the signature indexed 0.
    Transferable,
}

/// How an identifier signs its transaction log queries: an identifier that
/// is a public key signs as that key, any other identifier as itself.
pub fn tel_query_signing(kind: PrefixKind) -> (s: QuerySigning)
    ensures
        s == (if kind == PrefixKind::Basic { QuerySigning::NonTransferable } else { QuerySigning::Transferable }),
{
    match kind {
        PrefixKind::Basic => QuerySigning::NonTransferable,
        _ => QuerySigning::Transferable,
    }
}

} // verus!
