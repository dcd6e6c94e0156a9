//! The credential of the `keyring` crate's builder API, with descriptions of the
//! form `keyring-rs:{user}@{service}`.
use crate::description::{build_description, description_of, identity_of};
use crate::error::{is_invalid, Error};
use crate::keyops::{
    fetch_secret,
    has_nul,
    invalidate_entry,
    kernel_failure,
    persistent_keyring,
    session_keyring,
    store_secret,
};
use linux_keyutils::{KeyError, KeyRing};
use vstd::prelude::*;
use vstd::utf8::encode_utf8;

verus! {

/// A credential in the kernel keyrings, addressed by description.
///
/// No kernel key exists until a secret is set, so a read before that fails.
#[derive(Debug)]
pub struct KeyutilsCredential {
    /// Session keyring of the process that built the credential.
    pub session: KeyRing,
    /// Persistent keyring of the user, when one could be had.
    pub persistent: Option<KeyRing>,
    /// Description of the kernel key; never empty.
    pub description: String,
}

/// The description of a credential of this kind: the target if there is
/// one, else `keyring-rs:{user}@{service}`.
pub open spec fn keyring_rs_description(target: Option<Seq<char>>, service: Seq<char>, user: Seq<char>) -> Seq<char> {
    match target {
        Some(t) => t,
        None => "keyring-rs:"@ + user + "@"@ + service,
    }
}

/// Relies on keyring::error::decode_password: the bytes as a string when
/// they are UTF-8, else the bytes handed back.
#[verifier::external_body]
fn decode_password(bytes: Vec<u8>) -> (r: Result<String, Vec<u8>>)
    ensures
        r is Ok ==> encode_utf8(r->Ok_0@) == bytes@,
        r is Err ==> r->Err_0@ == bytes@,
{
    match keyring::error::decode_password(bytes) {
        Ok(s) => Ok(s),
        Err(keyring::Error::BadEncoding(b)) => Err(b),
        Err(_) => Err(Vec::new()),
    }
}

/// Reads a secret as a password: the UTF-8 text it encodes, or `BadEncoding`
/// with the secret when it is not UTF-8.
pub fn decode_secret(secret: Vec<u8>) -> (r: Result<String, Error>)
    ensures
        r is Ok ==> encode_utf8(r->Ok_0@) == secret@,
        r is Err ==> r->Err_0 is BadEncoding && r->Err_0->BadEncoding_0@ == secret@,
{
    match decode_password(secret) {
        Ok(s) => Ok(s),
        Err(b) => Err(Error::BadEncoding(b)),
    }
}

proof fn lemma_encoding_empty(chars: Seq<char>)
    ensures
        encode_utf8(chars).len() == 0 <==> chars.len() == 0,
{
    reveal_with_fuel(encode_utf8, 1);
    if chars.len() > 0 {
        assert(vstd::utf8::encode_scalar(chars[0] as u32).len() > 0);
    }
}

impl KeyutilsCredential {
    /// The invariant: the description is not empty.
    pub open spec fn wf(&self) -> bool {
        self.description@.len() > 0
    }

    /// Builds the credential for a target description, or for `service` and
    /// `user` when there is none. An empty target is refused. The session
    /// keyring is required; the persistent one is used when it can be had.
    pub fn new_with_target(target: Option<&str>, service: &str, user: &str) -> (r: Result<Self, Error>)
        ensures
            match target {
                Some(t) => t@.len() == 0 ==> r is Err && is_invalid(
                    r->Err_0,
                    "description"@,
                    "cannot be empty"@,
                ),
                None => true,
            },
            r is Ok ==> r->Ok_0.wf() && r->Ok_0.description@ == keyring_rs_description(
                match target {
                    Some(t) => Some(t@),
                    None => None,
                },
                service@,
                user@,
            ),
            r is Err ==> r->Err_0 is NoStorageAccess || (target is Some && target->Some_0@.len() == 0),
            target is None || target->Some_0@.len() > 0 ==> (r is Ok || r->Err_0 is NoStorageAccess),
    {
        let delimiters: [String; 3] = ["keyring-rs:".to_string(), "@".to_string(), "".to_string()];
        proof {
            reveal_strlit("keyring-rs:");
            let id = identity_of(target, &delimiters, false, service, user);
            assert(id.prefix.len() > 0);
            assert(target is None ==> description_of(id).len() > 0);
        }
        let description = match build_description(target, &delimiters, false, service, user) {
            Ok((d, _)) => d,
            Err(e) => return Err(e),
        };
        proof {
            let id = identity_of(target, &delimiters, false, service, user);
            reveal_strlit("");
            assert(id.suffix =~= Seq::<char>::empty());
            assert(description_of(id) =~= keyring_rs_description(id.target, service@, user@));
        }
        let session = session_keyring();
        let persistent = match &session {
            Ok(_) => persistent_keyring(),
            Err(k) => Err(*k),
        };
        Self::assemble(description, session, persistent)
    }

    /// Packages a credential from the outcomes of the two keyring lookups.
    ///
    /// The session keyring is required: its failure is `NoStorageAccess`
    /// with the kernel's error. The persistent keyring is best-effort: its
    /// failure leaves the credential without one.
    pub fn assemble(
        description: String,
        session: Result<KeyRing, KeyError>,
        persistent: Result<KeyRing, KeyError>,
    ) -> (r: Result<Self, Error>)
        ensures
            match session {
                Err(k) => r == Err::<KeyutilsCredential, Error>(Error::NoStorageAccess(k)),
                Ok(s) => r is Ok && r->Ok_0.session == s && r->Ok_0.description == description
                    && r->Ok_0.persistent == match persistent {
                    Ok(p) => Some(p),
                    Err(_) => None::<KeyRing>,
                },
            },
    {
        let session = match session {
            Ok(ring) => ring,
            Err(k) => return Err(Error::NoStorageAccess(k)),
        };
        let persistent = match persistent {
            Ok(ring) => Some(ring),
            Err(_) => None,
        };
        Ok(KeyutilsCredential { session, persistent, description })
    }

    /// Stores `secret`, replacing any earlier one. An empty secret is refused
    /// before the kernel is asked.
    pub fn set_secret(&self, secret: &[u8]) -> (r: Result<(), Error>)
        ensures
            secret@.len() == 0 ==> r is Err && is_invalid(r->Err_0, "secret"@, "cannot be empty"@),
            secret@.len() > 0 && has_nul(self.description@) ==> r is Err && is_invalid(
                r->Err_0,
                "description"@,
                "rejected by the platform"@,
            ),
            secret@.len() > 0 && r is Err ==> kernel_failure(r->Err_0),
    {
        store_secret(&self.session, &self.persistent, self.description.as_str(), secret)
    }

    /// Stores the UTF-8 bytes of `password`. An empty password is refused.
    pub fn set_password(&self, password: &str) -> (r: Result<(), Error>)
        ensures
            password@.len() == 0 ==> r is Err && is_invalid(r->Err_0, "secret"@, "cannot be empty"@),
            password@.len() > 0 && r is Err ==> kernel_failure(r->Err_0),
    {
        proof {
            lemma_encoding_empty(password@);
        }
        self.set_secret(password.as_bytes())
    }

    /// Reads the stored secret, re-anchoring its key in both keyrings.
    pub fn get_secret(&self) -> (r: Result<Vec<u8>, Error>)
        ensures
            r is Err ==> kernel_failure(r->Err_0),
            has_nul(self.description@) ==> r is Err && is_invalid(
                r->Err_0,
                "description"@,
                "rejected by the platform"@,
            ),
    {
        fetch_secret(&self.session, &self.persistent, self.description.as_str())
    }

    /// Reads the stored secret as a UTF-8 password.
    pub fn get_password(&self) -> (r: Result<String, Error>)
        ensures
            r is Err ==> kernel_failure(r->Err_0) || r->Err_0 is BadEncoding,
    {
        match self.get_secret() {
            Ok(secret) => decode_secret(secret),
            Err(e) => Err(e),
        }
    }

    /// Deletes the stored secret by invalidating its key.
    pub fn delete_credential(&self) -> (r: Result<(), Error>)
        ensures
            r is Err ==> kernel_failure(r->Err_0),
            has_nul(self.description@) ==> r is Err && is_invalid(
                r->Err_0,
                "description"@,
                "rejected by the platform"@,
            ),
    {
        invalidate_entry(&self.session, self.description.as_str())
    }
}

} // verus!
