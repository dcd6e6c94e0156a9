//! The credential record: where in the kernel one credential lives.
use crate::description::{
    border_free,
    build_description,
    lemma_distinct_identities_distinct_descriptions,
    description_of,
    identity_of,
    service_refused,
    Identity,
};
use crate::error::{is_invalid, Error};
use crate::keyops::{
    fetch_secret,
    has_nul,
    invalidate_entry,
    kernel_failure,
    persistent_keyring,
    probe_entry,
    session_keyring,
    store_secret,
};
use linux_keyutils::{KeyError, KeyRing};
use vstd::prelude::*;

verus! {

/// A credential in the kernel keyrings.
///
/// The record holds no secret: the secret lives only in the kernel key found
/// by `description`, so any read before the first write fails. Records are
/// cheap values; two records with one description share one kernel key.
#[derive(Debug)]
pub struct Cred {
    /// Session keyring of the process that built the record.
    pub session: KeyRing,
    /// Persistent keyring of the user, when one could be had.
    pub persistent: Option<KeyRing>,
    /// Description of the kernel key; never empty.
    pub description: String,
    /// The (user, service) pair, when the description was derived from it.
    pub specifiers: Option<(String, String)>,
}

/// Whether `r` is what building a record for `id` may give: the exact
/// refusal for an identity that is refused; otherwise a record with the
/// description of `id` and its specifiers, or a failure to reach the
/// session keyring.
pub open spec fn record_outcome(id: Identity, r: Result<Cred, Error>) -> bool {
    if service_refused(id) {
        r is Err && is_invalid(r->Err_0, "service"@, "cannot contain delimiter"@)
    } else if description_of(id).len() == 0 {
        r is Err && is_invalid(r->Err_0, "description"@, "cannot be empty"@)
    } else {
        match r {
            Ok(c) => c.description@ == description_of(id) && match c.specifiers {
                Some(spec) => id.target is None && spec.0@ == id.user && spec.1@ == id.service,
                None => id.target is Some,
            },
            Err(e) => e is NoStorageAccess,
        }
    }
}

/// Two records built from one identity share their description, and so
/// observe and change the same kernel key.
pub proof fn lemma_same_identity_same_key(id: Identity, r1: Result<Cred, Error>, r2: Result<Cred, Error>)
    requires
        record_outcome(id, r1),
        record_outcome(id, r2),
        r1 is Ok,
        r2 is Ok,
    ensures
        r1->Ok_0.description@ == r2->Ok_0.description@,
{
}

/// Under `service_no_divider`, two records built without a target from
/// distinct (service, user) pairs never share a description, provided that
/// no proper prefix of the divider is also a suffix of it (true of any
/// single-character divider).
pub proof fn lemma_distinct_identities_distinct_keys(
    id1: Identity,
    id2: Identity,
    r1: Result<Cred, Error>,
    r2: Result<Cred, Error>,
)
    requires
        record_outcome(id1, r1),
        record_outcome(id2, r2),
        r1 is Ok,
        r2 is Ok,
        id1.target is None,
        id2.target is None,
        id1.service_no_divider,
        id1.prefix == id2.prefix,
        id1.divider == id2.divider,
        id1.suffix == id2.suffix,
        id1.service_no_divider == id2.service_no_divider,
        border_free(id1.divider),
        id1.service != id2.service || id1.user != id2.user,
    ensures
        r1->Ok_0.description@ != r2->Ok_0.description@,
{
    lemma_distinct_identities_distinct_descriptions(
        id1.prefix,
        id1.divider,
        id1.suffix,
        id1.service,
        id1.user,
        id2.service,
        id2.user,
    );
}

impl Cred {
    /// The record's invariant: its description is not empty.
    pub open spec fn wf(&self) -> bool {
        self.description@.len() > 0
    }

    /// Builds the record for a credential.
    ///
    /// An explicit target is the description; otherwise the description is
    /// `delimiters[0] + user + delimiters[1] + service + delimiters[2]`. The
    /// session keyring is required; the persistent one is used when it can be
    /// had. No kernel key is looked up or made.
    pub fn build_from_specifiers(
        target: Option<&str>,
        delimiters: &[String; 3],
        service_no_dividers: bool,
        service: &str,
        user: &str,
    ) -> (r: Result<Self, Error>)
        ensures
            record_outcome(identity_of(target, delimiters, service_no_dividers, service, user), r),
            r is Ok ==> r->Ok_0.wf(),
    {
        let (description, specifiers) = match build_description(
            target,
            delimiters,
            service_no_dividers,
            service,
            user,
        ) {
            Ok(found) => found,
            Err(e) => return Err(e),
        };
        let session = session_keyring();
        let persistent = match &session {
            Ok(_) => persistent_keyring(),
            Err(k) => Err(*k),
        };
        Self::assemble(description, specifiers, session, persistent)
    }

    /// Packages a record from the outcomes of the two keyring lookups.
    ///
    /// The session keyring is required: its failure is `NoStorageAccess`
    /// with the kernel's error. The persistent keyring is best-effort: its
    /// failure leaves the record without one.
    pub fn assemble(
        description: String,
        specifiers: Option<(String, String)>,
        session: Result<KeyRing, KeyError>,
        persistent: Result<KeyRing, KeyError>,
    ) -> (r: Result<Self, Error>)
        ensures
            match session {
                Err(k) => r == Err::<Cred, Error>(Error::NoStorageAccess(k)),
                Ok(s) => r is Ok && r->Ok_0.session == s && r->Ok_0.description == description
                    && r->Ok_0.specifiers == specifiers && r->Ok_0.persistent == match persistent {
                    Ok(p) => Some(p),
                    Err(_) => None::<KeyRing>,
                },
            },
    {
        let session = match session {
            Ok(ring) => ring,
            Err(k) => return Err(Error::NoStorageAccess(k)),
        };
        let persistent = match persistent {
            Ok(ring) => Some(ring),
            Err(_) => None,
        };
        Ok(Cred { session, persistent, description, specifiers })
    }

    /// Stores `secret`, replacing any earlier one. An empty secret is refused
    /// before the kernel is asked.
    pub fn set_secret(&self, secret: &[u8]) -> (r: Result<(), Error>)
        ensures
            secret@.len() == 0 ==> r is Err && is_invalid(r->Err_0, "secret"@, "cannot be empty"@),
            secret@.len() > 0 && has_nul(self.description@) ==> r is Err && is_invalid(
                r->Err_0,
                "description"@,
                "rejected by the platform"@,
            ),
            secret@.len() > 0 && r is Err ==> kernel_failure(r->Err_0),
    {
        store_secret(&self.session, &self.persistent, self.description.as_str(), secret)
    }

    /// Reads the stored secret, re-anchoring its key in both keyrings.
    pub fn get_secret(&self) -> (r: Result<Vec<u8>, Error>)
        ensures
            r is Err ==> kernel_failure(r->Err_0),
            has_nul(self.description@) ==> r is Err && is_invalid(
                r->Err_0,
                "description"@,
                "rejected by the platform"@,
            ),
    {
        fetch_secret(&self.session, &self.persistent, self.description.as_str())
    }

    /// Deletes the stored secret by invalidating its key.
    pub fn delete_credential(&self) -> (r: Result<(), Error>)
        ensures
            r is Err ==> kernel_failure(r->Err_0),
            has_nul(self.description@) ==> r is Err && is_invalid(
                r->Err_0,
                "description"@,
                "rejected by the platform"@,
            ),
    {
        invalidate_entry(&self.session, self.description.as_str())
    }

    /// Succeeds exactly when a valid key is stored under the description;
    /// the record itself stands for that key, so nothing else is returned.
    pub fn get_credential(&self) -> (r: Result<(), Error>)
        ensures
            r is Err ==> kernel_failure(r->Err_0),
            has_nul(self.description@) ==> r is Err && is_invalid(
                r->Err_0,
                "description"@,
                "rejected by the platform"@,
            ),
    {
        probe_entry(&self.session, self.description.as_str())
    }

    /// The (user, service) pair the description was derived from, if it was.
    pub fn get_specifiers(&self) -> (r: Option<(String, String)>)
        ensures
            r == self.specifiers,
    {
        match &self.specifiers {
            Some((user, service)) => Some((user.clone(), service.clone())),
            None => None,
        }
    }
}

} // verus!
