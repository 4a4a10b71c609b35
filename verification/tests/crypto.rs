use req_response_exporter::crypto::backend::Backend;
use req_response_exporter::crypto::enginectl::CliError;
use req_response_exporter::crypto::{admin_api, enginectl, otap};
use req_response_exporter::crypto::{ensure_crypto_provider, CryptoFeatures, CryptoInit};

const NO_BACKEND: &str = "TLS support requires one of the crypto features: \
     crypto-ring, crypto-aws-lc, crypto-openssl, or crypto-symcrypt";

fn features(openssl: bool, aws_lc: bool, ring: bool, symcrypt: bool) -> CryptoFeatures {
    CryptoFeatures {
        crypto_openssl: openssl,
        crypto_aws_lc: aws_lc,
        crypto_ring: ring,
        crypto_symcrypt: symcrypt,
    }
}

fn chosen_with(features: CryptoFeatures) -> Option<Option<Backend>> {
    let mut init = CryptoInit::new();
    let _ = ensure_crypto_provider(&mut init, features);
    init.chosen()
}

#[test]
fn backends_are_chosen_by_priority() {
    assert_eq!(CryptoInit::new().chosen(), None);
    assert_eq!(chosen_with(features(true, true, true, true)), Some(Some(Backend::OpenSsl)));
    assert_eq!(chosen_with(features(false, true, true, true)), Some(Some(Backend::AwsLc)));
    assert_eq!(chosen_with(features(false, false, true, true)), Some(Some(Backend::Ring)));
    assert_eq!(chosen_with(features(false, false, false, true)), Some(Some(Backend::SymCrypt)));
    assert_eq!(chosen_with(features(false, false, false, false)), Some(None));
}

#[test]
fn initialization_fails_without_a_backend() {
    let none = features(false, false, false, false);
    let mut init = CryptoInit::new();
    assert_eq!(ensure_crypto_provider(&mut init, none), Err(NO_BACKEND.to_string()));
    assert_eq!(
        admin_api::ensure_crypto_provider(&mut CryptoInit::new(), none),
        Err(NO_BACKEND.to_string())
    );
    assert_eq!(
        otap::install_crypto_provider(&mut CryptoInit::new(), none),
        Err(NO_BACKEND.to_string())
    );
    match enginectl::ensure_crypto_provider(&mut CryptoInit::new(), none) {
        Err(CliError::Config { message }) => assert_eq!(message, NO_BACKEND),
        Ok(()) => panic!("expected an error"),
    }
}

#[test]
fn the_first_choice_stands() {
    let mut init = CryptoInit::new();
    assert_eq!(ensure_crypto_provider(&mut init, features(false, false, false, false)).is_ok(), false);
    assert_eq!(ensure_crypto_provider(&mut init, features(true, true, true, true)).is_ok(), false);
    assert_eq!(init.chosen(), Some(None));

    let mut init = CryptoInit::new();
    assert_eq!(ensure_crypto_provider(&mut init, features(false, false, false, true)), Ok(()));
    assert_eq!(ensure_crypto_provider(&mut init, features(false, false, false, false)), Ok(()));
    assert_eq!(init.chosen(), Some(Some(Backend::SymCrypt)));
}

#[test]
fn host_is_told_once_to_install_symcrypt() {
    let symcrypt = features(false, false, false, true);
    let mut init = CryptoInit::new();
    assert!(!init.take_host_install());
    assert_eq!(ensure_crypto_provider(&mut init, symcrypt), Ok(()));
    assert!(init.take_host_install());
    assert_eq!(ensure_crypto_provider(&mut init, symcrypt), Ok(()));
    assert!(!init.take_host_install());

    let mut init = CryptoInit::new();
    otap::ensure_crypto_provider(&mut init, features(false, false, true, true));
    assert!(!init.take_host_install());
}

#[test]
fn host_is_not_told_again_whatever_happens_in_between() {
    let symcrypt = features(false, false, false, true);
    let ring = features(false, false, true, false);
    let mut init = CryptoInit::new();
    let mut told = vec![init.take_host_install()];
    otap::ensure_crypto_provider(&mut init, symcrypt);
    otap::ensure_crypto_provider(&mut init, ring);
    told.push(init.take_host_install());
    otap::ensure_crypto_provider(&mut init, symcrypt);
    told.push(init.take_host_install());
    assert_eq!(told, vec![false, true, false]);
    assert_eq!(init.chosen(), Some(Some(Backend::SymCrypt)));
}
