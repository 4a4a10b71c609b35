use req_response_exporter::crypto::{enginectl, otap};
use req_response_exporter::crypto::{CryptoFeatures, CryptoInit};

#[test]
fn ring_provider_is_installed() {
    let features = CryptoFeatures {
        crypto_openssl: false,
        crypto_aws_lc: false,
        crypto_ring: true,
        crypto_symcrypt: true,
    };
    let mut init = CryptoInit::new();
    assert!(rustls::crypto::CryptoProvider::get_default().is_none());
    otap::ensure_crypto_provider(&mut init, features);
    let provider = rustls::crypto::CryptoProvider::get_default().unwrap();
    assert!(format!("{:?}", provider.secure_random).contains("Ring"));
    assert!(enginectl::ensure_crypto_provider(&mut init, features).is_ok());
}
