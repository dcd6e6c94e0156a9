//! Key operations against the kernel keyrings.
//!
//! Every operation looks the key up by description on each call; no key
//! handle is cached. What the kernel holds is outside this library, so the
//! contracts here say what holds of every kernel outcome: success, or a
//! kernel error mapped into the caller-visible taxonomy.
use crate::error::{is_invalid, lift, surfaces_as, Error};
use linux_keyutils::{Key, KeyError};
use vstd::prelude::*;

verus! {

/// A kernel keyring, known to this library only as a handle.
#[verifier::external_type_specification]
#[verifier::external_body]
pub struct ExKeyRing(linux_keyutils::KeyRing);

/// A kernel key, known to this library only as a handle.
#[verifier::external_type_specification]
#[verifier::external_body]
pub struct ExKey(Key);

/// Whether `s` holds a NUL character, which no key description can.
pub open spec fn has_nul(s: Seq<char>) -> bool {
    s.contains('\0')
}

/// Whether `e` is how some kernel error surfaces.
pub open spec fn kernel_failure(e: Error) -> bool {
    exists|k: KeyError| surfaces_as(k, e)
}

/// Relies on linux_keyutils::KeyRing::from_special_id: resolves the session
/// keyring of the calling process without creating one.
#[verifier::external_body]
pub(crate) fn session_keyring() -> (r: Result<linux_keyutils::KeyRing, KeyError>) {
    linux_keyutils::KeyRing::from_special_id(linux_keyutils::KeyRingIdentifier::Session, false)
}

/// Relies on linux_keyutils::KeyRing::get_persistent: resolves the persistent
/// keyring of the current user and links it into the session keyring.
#[verifier::external_body]
pub(crate) fn persistent_keyring() -> (r: Result<linux_keyutils::KeyRing, KeyError>) {
    linux_keyutils::KeyRing::get_persistent(linux_keyutils::KeyRingIdentifier::Session)
}

/// Relies on linux_keyutils::KeyRing::add_key: creates or replaces the user
/// key with this description in `ring`. A description holding a NUL
/// character is refused before the kernel is asked.
#[verifier::external_body]
fn add_key(ring: &linux_keyutils::KeyRing, description: &str, secret: &[u8]) -> (r: Result<Key, KeyError>)
    ensures
        has_nul(description@) ==> r is Err && r->Err_0 == KeyError::InvalidDescription,
{
    ring.add_key(description, secret)
}

/// Relies on linux_keyutils::KeyRing::search: finds the user key with this
/// description in the tree rooted at `ring`. A description holding a NUL
/// character is refused before the kernel is asked.
#[verifier::external_body]
fn search_key(ring: &linux_keyutils::KeyRing, description: &str) -> (r: Result<Key, KeyError>)
    ensures
        has_nul(description@) ==> r is Err && r->Err_0 == KeyError::InvalidDescription,
{
    ring.search(description)
}

/// Relies on linux_keyutils::KeyRing::link_key: links `key` into `ring`.
#[verifier::external_body]
fn link_key(ring: &linux_keyutils::KeyRing, key: &Key) -> (r: Result<(), KeyError>) {
    ring.link_key(*key)
}

/// Relies on linux_keyutils::Key::read_to_vec: reads the key's payload.
#[verifier::external_body]
fn read_key(key: &Key) -> (r: Result<Vec<u8>, KeyError>) {
    key.read_to_vec()
}

/// Relies on linux_keyutils::Key::invalidate: makes the key invisible to
/// further searches.
#[verifier::external_body]
fn invalidate_key(key: &Key) -> (r: Result<(), KeyError>) {
    key.invalidate()
}

/// Stores `secret` under `description` in the session keyring, and links the
/// key into the persistent keyring when there is one.
///
/// An empty secret is refused before the kernel is asked.
pub fn store_secret(
    session: &linux_keyutils::KeyRing,
    persistent: &Option<linux_keyutils::KeyRing>,
    description: &str,
    secret: &[u8],
) -> (r: Result<(), Error>)
    ensures
        secret@.len() == 0 ==> r is Err && is_invalid(r->Err_0, "secret"@, "cannot be empty"@),
        secret@.len() > 0 && has_nul(description@) ==> r is Err && is_invalid(
            r->Err_0,
            "description"@,
            "rejected by the platform"@,
        ),
        secret@.len() > 0 && r is Err ==> kernel_failure(r->Err_0),
{
    if secret.len() == 0 {
        return Err(Error::Invalid("secret".to_string(), "cannot be empty".to_string()));
    }
    let key = match lift(add_key(session, description, secret)) {
        Ok(key) => key,
        Err(e) => return Err(e),
    };
    if let Some(ring) = persistent {
        let linked = lift(link_key(ring, &key));
        if linked.is_err() {
            return linked;
        }
    }
    Ok(())
}

/// Reads the secret stored under `description`.
///
/// The key found is first re-linked into the session keyring and, when there
/// is one, into the persistent keyring, so that a key surviving in only one
/// of them (after a re-login, or an expiry) is anchored in both again.
pub fn fetch_secret(
    session: &linux_keyutils::KeyRing,
    persistent: &Option<linux_keyutils::KeyRing>,
    description: &str,
) -> (r: Result<Vec<u8>, Error>)
    ensures
        has_nul(description@) ==> r is Err && is_invalid(
            r->Err_0,
            "description"@,
            "rejected by the platform"@,
        ),
        r is Err ==> kernel_failure(r->Err_0),
{
    let key = match lift(search_key(session, description)) {
        Ok(key) => key,
        Err(e) => return Err(e),
    };
    if let Err(e) = lift(link_key(session, &key)) {
        return Err(e);
    }
    if let Some(ring) = persistent {
        if let Err(e) = lift(link_key(ring, &key)) {
            return Err(e);
        }
    }
    lift(read_key(&key))
}

/// Invalidates the key stored under `description`.
///
/// The kernel's caches take a moment to clear, so a read in the same process
/// right after this may still find the old key.
pub fn invalidate_entry(session: &linux_keyutils::KeyRing, description: &str) -> (r: Result<
    (),
    Error,
>)
    ensures
        has_nul(description@) ==> r is Err && is_invalid(
            r->Err_0,
            "description"@,
            "rejected by the platform"@,
        ),
        r is Err ==> kernel_failure(r->Err_0),
{
    let key = match lift(search_key(session, description)) {
        Ok(key) => key,
        Err(e) => return Err(e),
    };
    lift(invalidate_key(&key))
}

/// Whether a valid key is stored under `description`: `Ok` exactly when the
/// lookup finds one.
pub fn probe_entry(session: &linux_keyutils::KeyRing, description: &str) -> (r: Result<(), Error>)
    ensures
        has_nul(description@) ==> r is Err && is_invalid(
            r->Err_0,
            "description"@,
            "rejected by the platform"@,
        ),
        r is Err ==> kernel_failure(r->Err_0),
{
    match lift(search_key(session, description)) {
        Ok(_) => Ok(()),
        Err(e) => Err(e),
    }
}

} // verus!
