use req_response_exporter::crypto::admin_api;
use req_response_exporter::crypto::{CryptoFeatures, CryptoInit};

#[test]
fn aws_lc_provider_is_installed() {
    let features = CryptoFeatures {
        crypto_openssl: false,
        crypto_aws_lc: true,
        crypto_ring: true,
        crypto_symcrypt: true,
    };
    let mut init = CryptoInit::new();
    assert!(rustls::crypto::CryptoProvider::get_default().is_none());
    assert_eq!(admin_api::ensure_crypto_provider(&mut init, features), Ok(()));
    let provider = rustls::crypto::CryptoProvider::get_default().unwrap();
    assert!(format!("{:?}", provider.secure_random).contains("AwsLcRs"));
}
