use linux_keyutils::{KeyError, KeyRing, KeyRingIdentifier};
use linux_keyutils_keyring_store::error::Error;
use linux_keyutils_keyring_store::{Cred, KeyutilsCredential, Store};

/// Joins a session keyring of this process, as a login session would
/// provide one; without it keys land in the user-session keyring, which
/// this process does not possess.
fn ensure_session() {
    linux_keyutils::KeyRing::from_special_id(linux_keyutils::KeyRingIdentifier::Session, true)
        .expect("a session keyring");
}

fn unique(tag: &str) -> String {
    ensure_session();
    let random: String = std::iter::repeat_with(fastrand::alphanumeric).take(12).collect();
    format!("{tag}-{random}")
}

#[test]
fn hello_scenario() {
    ensure_session();
    let store = Store::new().unwrap();
    let cred = store.build("service", "user", None).unwrap();
    assert_eq!(cred.description, "keyring:user@service");
    cred.set_secret(b"hello").unwrap();
    assert_eq!(cred.get_secret().unwrap(), b"hello");
    cred.delete_credential().unwrap();
    assert!(matches!(cred.get_secret(), Err(Error::NoEntry)));
}

#[test]
fn binary_secret_round_trips() {
    let name = unique("binary");
    let cred = Store::new().unwrap().build(&name, &name, None).unwrap();
    let secret: Vec<u8> = vec![0, 1, 2, 255, 254, 0, 128];
    cred.set_secret(&secret).unwrap();
    assert_eq!(cred.get_secret().unwrap(), secret);
    cred.delete_credential().unwrap();
    assert!(matches!(cred.delete_credential(), Err(Error::NoEntry)));
}

#[test]
fn empty_secret_leaves_existing_value() {
    let name = unique("empty");
    let cred = Store::new().unwrap().build(&name, &name, None).unwrap();
    cred.set_secret(b"kept").unwrap();
    assert!(matches!(cred.set_secret(b""), Err(Error::Invalid(_, _))));
    assert_eq!(cred.get_secret().unwrap(), b"kept");
    cred.delete_credential().unwrap();
}

#[test]
fn keyring_rs_credential_round_trips_passwords() {
    let name = unique("keyring-rs");
    let cred = KeyutilsCredential::new_with_target(None, &name, &name).unwrap();
    assert_eq!(cred.description, format!("keyring-rs:{name}@{name}"));
    assert!(matches!(cred.get_password(), Err(Error::NoEntry)));
    assert!(matches!(cred.set_password(""), Err(Error::Invalid(_, _))));
    cred.set_password("keyring-rs password").unwrap();
    assert_eq!(cred.get_password().unwrap(), "keyring-rs password");
    cred.set_secret(&[0xff, 0xfe]).unwrap();
    assert!(matches!(cred.get_password(), Err(Error::BadEncoding(_))));
    cred.delete_credential().unwrap();
    assert!(matches!(cred.get_secret(), Err(Error::NoEntry)));
}

#[test]
fn description_with_nul_is_rejected_by_the_platform() {
    ensure_session();
    let store = Store::new().unwrap();
    let modifiers = std::collections::HashMap::from([("description", "bad\0description")]);
    let cred = store.build("service", "user", Some(&modifiers)).unwrap();
    match cred.set_secret(b"secret") {
        Err(Error::Invalid(field, reason)) => {
            assert_eq!(field, "description");
            assert_eq!(reason, "rejected by the platform");
        }
        other => panic!("expected the description to be rejected, got {other:?}"),
    }
    assert!(matches!(cred.get_secret(), Err(Error::Invalid(_, _))));
}

#[test]
fn assembling_requires_the_session_keyring_only() {
    ensure_session();
    let ring = KeyRing::from_special_id(KeyRingIdentifier::Session, false).unwrap();
    let specifiers = Some(("user".to_string(), "service".to_string()));
    let cred = Cred::assemble("d".to_string(), specifiers.clone(), Ok(ring), Err(KeyError::AccessDenied)).unwrap();
    assert_eq!(cred.session, ring);
    assert_eq!(cred.persistent, None);
    assert_eq!(cred.description, "d");
    assert_eq!(cred.specifiers, specifiers);
    let cred = Cred::assemble("d".to_string(), None, Ok(ring), Ok(ring)).unwrap();
    assert_eq!(cred.persistent, Some(ring));
    let r = Cred::assemble("d".to_string(), None, Err(KeyError::KeyRevoked), Ok(ring));
    assert!(matches!(r, Err(Error::NoStorageAccess(KeyError::KeyRevoked))));
    let r = KeyutilsCredential::assemble("d".to_string(), Err(KeyError::OutOfMemory), Ok(ring));
    assert!(matches!(r, Err(Error::NoStorageAccess(KeyError::OutOfMemory))));
    let k = KeyutilsCredential::assemble("d".to_string(), Ok(ring), Err(KeyError::PermissionDenied)).unwrap();
    assert_eq!(k.persistent, None);
}
