//! The credential builder of the `keyring` crate's builder API.
use crate::credentials::{keyring_rs_description, KeyutilsCredential};
use crate::error::{is_invalid, Error};
use keyring::credential::CredentialPersistence;
use vstd::prelude::*;

verus! {

/// How long the backing storage keeps credentials, in the `keyring` crate's terms.
#[verifier::external_type_specification]
pub struct ExKeyringPersistence(keyring::credential::CredentialPersistence);

/// The builder for keyutils credentials.
#[derive(Debug, Copy, Clone)]
pub struct KeyutilsCredentialBuilder {}

impl KeyutilsCredentialBuilder {
    /// Makes the builder.
    pub fn new() -> (r: Box<Self>) {
        Box::new(KeyutilsCredentialBuilder {})
    }

    /// Builds the credential for a target, or for `service` and `user`.
    /// No kernel key is made: setting a secret does that.
    pub fn build(&self, target: Option<&str>, service: &str, user: &str) -> (r: Result<
        KeyutilsCredential,
        Error,
    >)
        ensures
            r is Ok ==> r->Ok_0.wf() && r->Ok_0.description@ == keyring_rs_description(
                match target {
                    Some(t) => Some(t@),
                    None => None,
                },
                service@,
                user@,
            ),
            target is Some && target->Some_0@.len() == 0 ==> r is Err && is_invalid(
                r->Err_0,
                "description"@,
                "cannot be empty"@,
            ),
            r is Err ==> r->Err_0 is NoStorageAccess || (target is Some && target->Some_0@.len() == 0),
            target is None || target->Some_0@.len() > 0 ==> (r is Ok || r->Err_0 is NoStorageAccess),
    {
        KeyutilsCredential::new_with_target(target, service, user)
    }

    /// Credentials live in kernel memory, so they are lost on reboot.
    pub fn persistence(&self) -> (r: CredentialPersistence)
        ensures
            r == CredentialPersistence::UntilReboot,
    {
        CredentialPersistence::UntilReboot
    }
}

} // verus!
