//! Crypto-provider initialization for the admin SDK.
use vstd::prelude::*;

use crate::crypto::{CryptoFeatures, CryptoInit};

verus! {

/// Installs the configured rustls crypto provider (once, idempotently).
///
/// Delegates to [`crate::crypto::ensure_crypto_provider`].
pub fn ensure_crypto_provider(init: &mut CryptoInit, features: CryptoFeatures) -> (result: Result<
    (),
    String,
>)
    ensures
        crate::crypto::initialized(*old(init), features, *final(init)),
        crate::crypto::reports(result, final(init).choice()->0),
{
    crate::crypto::ensure_crypto_provider(init, features)
}

} // verus!
