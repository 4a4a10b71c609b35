//! Cryptographic provider initialization for the OTAP nodes.
use vstd::prelude::*;

use crate::crypto::{CryptoFeatures, CryptoInit};

verus! {

/// Installs the selected rustls `CryptoProvider` as the process-wide default.
///
/// See [`crate::crypto::ensure_crypto_provider`] for details.
///
/// # Errors
///
/// Returns `Err` if the program is built with no backend.
pub fn install_crypto_provider(init: &mut CryptoInit, features: CryptoFeatures) -> (result: Result<
    (),
    String,
>)
    ensures
        crate::crypto::initialized(*old(init), features, *final(init)),
        crate::crypto::reports(result, final(init).choice()->0),
{
    crate::crypto::ensure_crypto_provider(init, features)
}

/// Idempotent crypto provider installation (intended for test setup).
///
/// Equivalent to [`install_crypto_provider`] but discards the result, which is
/// convenient in test helpers where a provider should simply be present.
pub fn ensure_crypto_provider(init: &mut CryptoInit, features: CryptoFeatures)
    ensures
        crate::crypto::initialized(*old(init), features, *final(init)),
{
    let _ = install_crypto_provider(init, features);
}

} // verus!
