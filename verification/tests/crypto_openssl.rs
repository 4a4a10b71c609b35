use req_response_exporter::crypto::otap;
use req_response_exporter::crypto::{CryptoFeatures, CryptoInit};

#[test]
fn openssl_provider_is_installed() {
    let features = CryptoFeatures {
        crypto_openssl: true,
        crypto_aws_lc: true,
        crypto_ring: true,
        crypto_symcrypt: true,
    };
    let mut init = CryptoInit::new();
    assert!(rustls::crypto::CryptoProvider::get_default().is_none());
    assert_eq!(otap::install_crypto_provider(&mut init, features), Ok(()));
    let provider = rustls::crypto::CryptoProvider::get_default().unwrap();
    assert!(!provider.cipher_suites.is_empty());
    assert!(format!("{:?}", provider.secure_random).contains("SecureRandom"));
}
