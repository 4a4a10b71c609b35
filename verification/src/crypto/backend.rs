//! The crypto backends that can stand behind rustls, and how they are installed.
use vstd::prelude::*;

verus! {

/// A crypto backend for rustls.
#[derive(Debug, Clone, Copy, PartialEq, Eq, Structural)]
pub enum Backend {
    /// `ring`: default, backward-compatible.
    Ring,
    /// `aws-lc-rs`: AWS environments, broader algorithms.
    AwsLc,
    /// `rustls-openssl`: regulated and FIPS environments.
    OpenSsl,
    /// `rustls-symcrypt`: Microsoft/SymCrypt-aligned backend.
    SymCrypt,
}

/// What has been handed to rustls as the default provider of this process.
pub struct Handed {
    log: Ghost<Seq<Backend>>,
}

impl Handed {
    /// The backends whose providers were handed over, in their order.
    pub closed spec fn log(self) -> Seq<Backend> {
        self.log@
    }

    /// The state of a process that has handed nothing over.
    pub(crate) fn nothing() -> (handed: Handed)
        ensures
            handed.log() == Seq::<Backend>::empty(),
    {
        Handed { log: Ghost(Seq::empty()) }
    }
}

/// Calls `rustls_openssl::default_provider`, then
/// [`install_default`](rustls::crypto::CryptoProvider::install_default) on the provider that it
/// gives, which `handed` records. Whether the provider becomes the default is not said: one that
/// was installed earlier in the process stays.
#[verifier::external_body]
pub(crate) fn install_openssl(handed: &mut Handed)
    ensures
        final(handed).log() == old(handed).log().push(Backend::OpenSsl),
{
    let _ = rustls_openssl::default_provider().install_default();
}

/// Calls `rustls::crypto::aws_lc_rs::default_provider`, then
/// [`install_default`](rustls::crypto::CryptoProvider::install_default) on the provider that it
/// gives, which `handed` records. Whether the provider becomes the default is not said: one that
/// was installed earlier in the process stays.
#[verifier::external_body]
pub(crate) fn install_aws_lc(handed: &mut Handed)
    ensures
        final(handed).log() == old(handed).log().push(Backend::AwsLc),
{
    let _ = rustls::crypto::aws_lc_rs::default_provider().install_default();
}

/// Calls `rustls::crypto::ring::default_provider`, then
/// [`install_default`](rustls::crypto::CryptoProvider::install_default) on the provider that it
/// gives, which `handed` records. Whether the provider becomes the default is not said: one that
/// was installed earlier in the process stays.
#[verifier::external_body]
pub(crate) fn install_ring(handed: &mut Handed)
    ensures
        final(handed).log() == old(handed).log().push(Backend::Ring),
{
    let _ = rustls::crypto::ring::default_provider().install_default();
}

} // verus!
