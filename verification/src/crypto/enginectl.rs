//! Crypto-provider bootstrap for the admin SDK client.
use vstd::prelude::*;

use crate::crypto::{CryptoFeatures, CryptoInit};

verus! {

/// An error of the command-line client.
#[derive(Debug)]
pub enum CliError {
    /// The client is not set up for what it is asked to do.
    Config { message: String },
}

impl CliError {
    /// A configuration error with the given message.
    pub fn config(message: String) -> (error: CliError)
        ensures
            error == (CliError::Config { message }),
    {
        CliError::Config { message }
    }
}

/// Install the configured Rustls crypto provider once for the process.
pub fn ensure_crypto_provider(init: &mut CryptoInit, features: CryptoFeatures) -> (result: Result<
    (),
    CliError,
>)
    ensures
        crate::crypto::initialized(*old(init), features, *final(init)),
        match final(init).choice()->0 {
            Some(_) => result is Ok,
            None => result matches Err(CliError::Config { message }) && message@
                == crate::crypto::no_backend(),
        },
{
    match crate::crypto::admin_api::ensure_crypto_provider(init, features) {
        Ok(done) => Ok(done),
        Err(reason) => Err(CliError::config(reason)),
    }
}

} // verus!
