use std::collections::HashMap;

use linux_keyutils::KeyError;
use linux_keyutils_keyring_store::credentials::decode_secret;
use linux_keyutils_keyring_store::description::build_description;
use linux_keyutils_keyring_store::error::{lift, Error};
use linux_keyutils_keyring_store::{KeyutilsCredential, KeyutilsCredentialBuilder, Store};

fn delimiters(prefix: &str, divider: &str, suffix: &str) -> [String; 3] {
    [prefix.to_string(), divider.to_string(), suffix.to_string()]
}

fn assert_invalid<T: std::fmt::Debug>(r: Result<T, Error>, field: &str, reason: &str) {
    match r {
        Err(Error::Invalid(f, why)) => {
            assert_eq!(f, field);
            assert_eq!(why, reason);
        }
        other => panic!("expected Invalid({field}, {reason}), got {other:?}"),
    }
}

#[test]
fn derived_description_is_prefix_user_divider_service_suffix() {
    let d = delimiters("keyring:", "@", "");
    let (description, specifiers) = build_description(None, &d, false, "service", "user").unwrap();
    assert_eq!(description, "keyring:user@service");
    assert_eq!(specifiers, Some(("user".to_string(), "service".to_string())));
    let d = delimiters("<", "|", ">");
    let (description, _) = build_description(None, &d, true, "svc", "me").unwrap();
    assert_eq!(description, "<me|svc>");
}

#[test]
fn explicit_target_is_taken_verbatim() {
    let d = delimiters("keyring:", "@", "");
    let (description, specifiers) =
        build_description(Some("custom description"), &d, true, "ser@vice", "user").unwrap();
    assert_eq!(description, "custom description");
    assert_eq!(specifiers, None);
}

#[test]
fn empty_target_is_invalid() {
    let d = delimiters("keyring:", "@", "");
    assert_invalid(build_description(Some(""), &d, false, "service", "user"), "description", "cannot be empty");
}

#[test]
fn empty_derived_description_is_invalid() {
    let d = delimiters("", "", "");
    assert_invalid(build_description(None, &d, false, "", ""), "description", "cannot be empty");
}

#[test]
fn service_with_divider_is_refused_only_when_configured() {
    let d = delimiters("keyring:", "@", "");
    assert_invalid(build_description(None, &d, true, "ser@vice", "user"), "service", "cannot contain delimiter");
    let (description, _) = build_description(None, &d, false, "ser@vice", "user").unwrap();
    assert_eq!(description, "keyring:user@ser@vice");
    let d = delimiters("keyring:", "::", "");
    let (description, _) = build_description(None, &d, true, "a:b", "user").unwrap();
    assert_eq!(description, "keyring:user::a:b");
    assert_invalid(build_description(None, &d, true, "a::b", "user"), "service", "cannot contain delimiter");
}

#[test]
fn distinct_pairs_give_distinct_descriptions() {
    let d = delimiters("keyring:", "@", "");
    let (a, _) = build_description(None, &d, true, "a", "x").unwrap();
    let (b, _) = build_description(None, &d, true, "b", "x").unwrap();
    assert_ne!(a, b);
    let (c, _) = build_description(None, &d, true, "a", "x").unwrap();
    assert_eq!(a, c);
}

#[test]
fn kernel_errors_map_onto_the_taxonomy() {
    assert!(matches!(Error::from_kernel(KeyError::KeyDoesNotExist), Error::NoEntry));
    assert!(matches!(Error::from_kernel(KeyError::KeyRevoked), Error::NoEntry));
    assert!(matches!(Error::from_kernel(KeyError::KeyExpired), Error::NoEntry));
    assert!(matches!(Error::from_kernel(KeyError::AccessDenied), Error::NoEntry));
    assert_invalid::<()>(Err(Error::from_kernel(KeyError::InvalidDescription)), "description", "rejected by the platform");
    assert_invalid::<()>(Err(Error::from_kernel(KeyError::InvalidArguments)), "password", "rejected by the platform");
    assert!(matches!(
        Error::from_kernel(KeyError::QuotaExceeded),
        Error::PlatformFailure(KeyError::QuotaExceeded)
    ));
    assert!(matches!(
        Error::from_kernel(KeyError::Unknown(5)),
        Error::PlatformFailure(KeyError::Unknown(5))
    ));
    assert!(matches!(
        Error::from_kernel(KeyError::OutOfMemory),
        Error::PlatformFailure(KeyError::OutOfMemory)
    ));
}

#[test]
fn lift_keeps_success_and_maps_failure() {
    assert_eq!(lift::<u8>(Ok(7)).unwrap(), 7);
    assert!(matches!(lift::<u8>(Err(KeyError::KeyExpired)), Err(Error::NoEntry)));
}

#[test]
fn configuration_sets_delimiters_and_flag() {
    let store = Store::new_with_configuration(&HashMap::from([
        ("prefix", "pre-"),
        ("divider", "/"),
        ("suffix", "-post"),
        ("service_no_divider", "true"),
    ]))
    .unwrap();
    assert_eq!(store.delimiters, delimiters("pre-", "/", "-post"));
    assert!(store.service_no_divider);
    let store = Store::new_with_configuration(&HashMap::new()).unwrap();
    assert_eq!(store.delimiters, delimiters("keyring:", "@", ""));
    assert!(!store.service_no_divider);
    let store = Store::new().unwrap();
    assert_eq!(store.delimiters, delimiters("keyring:", "@", ""));
    assert!(!store.service_no_divider);
}

#[test]
fn configuration_refuses_unknown_options_and_bad_flags() {
    let r = Store::new_with_configuration(&HashMap::from([("colour", "blue")]));
    assert!(matches!(r, Err(Error::Invalid(ref k, _)) if k == "colour"));
    let r = Store::new_with_configuration(&HashMap::from([("service_no_divider", "yes")]));
    assert!(matches!(r, Err(Error::Invalid(ref k, _)) if k == "service_no_divider"));
}

#[test]
fn build_refuses_unknown_modifiers() {
    let store = Store::new().unwrap();
    let modifiers = HashMap::from([("target", "x")]);
    let r = store.build("service", "user", Some(&modifiers));
    assert!(matches!(r, Err(Error::Invalid(ref k, _)) if k == "target"));
}

#[test]
fn store_identity_names_the_time() {
    let store = Store::new().unwrap();
    let id = store.id();
    let rest = id.strip_prefix("Linux keyutils store, instantiated at ").unwrap();
    let (secs, nanos) = rest.split_once('.').unwrap();
    assert!(!secs.is_empty() && secs.chars().all(|c| c.is_ascii_digit()));
    assert!(secs.parse::<u64>().unwrap() > 1_000_000_000);
    assert_eq!(nanos.len(), 9);
    assert!(nanos.chars().all(|c| c.is_ascii_digit()));
    assert_eq!(
        store.vendor(),
        "Linux keyutils, https://crates.io/crates/linux-keyutils-keyring-store"
    );
}

#[test]
fn secrets_decode_as_passwords_only_when_utf8() {
    let text = "このきれいな花は桜です";
    assert_eq!(decode_secret(text.as_bytes().to_vec()).unwrap(), text);
    let bad = vec![0xed, 0xa0, 0xa0];
    assert!(matches!(decode_secret(bad.clone()), Err(Error::BadEncoding(ref b)) if *b == bad));
}

#[test]
fn builder_refuses_empty_target() {
    let builder = KeyutilsCredentialBuilder::new();
    assert_invalid(builder.build(Some(""), "service", "user"), "description", "cannot be empty");
    assert_invalid(KeyutilsCredential::new_with_target(Some(""), "service", "user"), "description", "cannot be empty");
    assert!(matches!(
        builder.persistence(),
        keyring::credential::CredentialPersistence::UntilReboot
    ));
}
