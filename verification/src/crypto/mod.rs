//! Shared rustls crypto-provider initialization.
use vstd::prelude::*;

use crate::crypto::backend::{install_aws_lc, install_openssl, install_ring, Backend, Handed};

pub mod admin_api;
pub mod backend;
pub mod enginectl;
pub mod otap;

verus! {

/// The crypto backends that a program is built with.
#[derive(Debug, Clone, Copy, PartialEq, Eq, Structural)]
pub struct CryptoFeatures {
    pub crypto_ring: bool,
    pub crypto_aws_lc: bool,
    pub crypto_openssl: bool,
    pub crypto_symcrypt: bool,
}

impl CryptoFeatures {
    /// The backend to use: openssl before aws-lc before ring before symcrypt.
    pub open spec fn selected(self) -> Option<Backend> {
        if self.crypto_openssl {
            Some(Backend::OpenSsl)
        } else if self.crypto_aws_lc {
            Some(Backend::AwsLc)
        } else if self.crypto_ring {
            Some(Backend::Ring)
        } else if self.crypto_symcrypt {
            Some(Backend::SymCrypt)
        } else {
            None
        }
    }
}

/// The crypto provider of a process: whether it has been chosen, which one, and what has been
/// handed to rustls. A process keeps one of these.
pub struct CryptoInit {
    chosen: Option<Option<Backend>>,
    handed: Handed,
    host_install: bool,
}

/// What initialization reports: success, unless there was no backend to choose.
pub open spec fn reports(result: Result<(), String>, chosen: Option<Backend>) -> bool {
    match chosen {
        Some(_) => result is Ok,
        None => result matches Err(reason) && reason@ == no_backend(),
    }
}

/// The reason why initialization fails without a backend.
pub open spec fn no_backend() -> Seq<char> {
    "TLS support requires one of the crypto features: crypto-ring, crypto-aws-lc, crypto-openssl, or crypto-symcrypt"@
}

/// The backends that are handed to rustls here once `chosen` is chosen: that one, except that
/// the provider of SymCrypt is left to the host, which alone links its native library.
pub open spec fn handed_for(chosen: Option<Backend>) -> Seq<Backend> {
    match chosen {
        Some(Backend::SymCrypt) => Seq::empty(),
        Some(backend) => seq![backend],
        None => Seq::empty(),
    }
}

/// What an initialization with `features` makes of `before`. The first one of a process chooses
/// the backend and hands over its provider, and no other; later ones change nothing.
pub open spec fn initialized(
    before: CryptoInit,
    features: CryptoFeatures,
    after: CryptoInit,
) -> bool {
    if before.choice() is Some {
        after == before
    } else {
        &&& after.choice() == Some(features.selected())
        &&& after.handed() == before.handed() + handed_for(features.selected())
        &&& after.host_install() == (features.selected() == Some(Backend::SymCrypt))
    }
}

/// What telling the host makes of `before`: the host is to install the provider of SymCrypt if it
/// has still to do so, and has not to do so afterwards.
pub open spec fn told(before: CryptoInit, after: CryptoInit, install: bool) -> bool {
    &&& install == before.host_install()
    &&& !after.host_install()
    &&& after.choice() == before.choice()
    &&& after.handed() == before.handed()
}

/// Whether nothing has been chosen, handed over or left to the host yet.
pub open spec fn is_fresh(init: CryptoInit) -> bool {
    &&& init.choice() is None
    &&& init.handed() == Seq::<Backend>::empty()
    &&& !init.host_install()
}

impl CryptoInit {
    /// Nothing before the first initialization; after it, the backend that it chose, if there was
    /// one.
    pub closed spec fn choice(self) -> Option<Option<Backend>> {
        self.chosen
    }

    /// The backends whose providers have been handed to rustls, in their order.
    pub closed spec fn handed(self) -> Seq<Backend> {
        self.handed.log()
    }

    /// Whether the host has still to install the provider of SymCrypt.
    pub closed spec fn host_install(self) -> bool {
        self.host_install
    }

    /// A process in which nothing has been chosen yet.
    pub fn new() -> (init: CryptoInit)
        ensures
            is_fresh(init),
    {
        CryptoInit { chosen: None, handed: Handed::nothing(), host_install: false }
    }

    /// What has been chosen, as [`choice`](Self::choice) says.
    pub fn chosen(&self) -> (chosen: Option<Option<Backend>>)
        ensures
            chosen == self.choice(),
    {
        self.chosen
    }

    /// Tells the host whether it is to install the provider of SymCrypt now. It is told so once.
    pub fn take_host_install(&mut self) -> (install: bool)
        ensures
            told(*old(self), *final(self), install),
    {
        let install: bool = self.host_install;
        self.host_install = false;
        install
    }
}

/// Installs the selected rustls crypto provider (once, idempotently).
///
/// The first call of a process chooses the backend. Every later one leaves everything as it is
/// and reports the same.
///
/// # Errors
///
/// Returns `Err` if the program is built with no backend.
pub fn ensure_crypto_provider(init: &mut CryptoInit, features: CryptoFeatures) -> (result: Result<
    (),
    String,
>)
    ensures
        initialized(*old(init), features, *final(init)),
        reports(result, final(init).choice()->0),
        old(init).choice() is None && features.crypto_openssl ==> final(init).choice() == Some(
            Some(Backend::OpenSsl),
        ),
        old(init).choice() is None && features.crypto_aws_lc && !features.crypto_openssl
            ==> final(init).choice() == Some(Some(Backend::AwsLc)),
        old(init).choice() is None && features.crypto_ring && !features.crypto_aws_lc
            && !features.crypto_openssl ==> final(init).choice() == Some(Some(Backend::Ring)),
{
    if init.chosen.is_none() {
        init.host_install = false;
        if features.crypto_openssl {
            install_openssl(&mut init.handed);
            init.chosen = Some(Some(Backend::OpenSsl));
        } else if features.crypto_aws_lc {
            install_aws_lc(&mut init.handed);
            init.chosen = Some(Some(Backend::AwsLc));
        } else if features.crypto_ring {
            install_ring(&mut init.handed);
            init.chosen = Some(Some(Backend::Ring));
        } else if features.crypto_symcrypt {
            init.host_install = true;
            init.chosen = Some(Some(Backend::SymCrypt));
        } else {
            init.chosen = Some(None);
        }
        assert(init.handed() =~= old(init).handed() + handed_for(features.selected()));
    }
    match init.chosen {
        Some(Some(_)) => Ok(()),
        _ => Err(
            "TLS support requires one of the crypto features: crypto-ring, crypto-aws-lc, crypto-openssl, or crypto-symcrypt".to_string(),
        ),
    }
}

} // verus!
