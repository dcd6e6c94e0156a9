//! The caller-visible error taxonomy and how kernel errors map onto it.
use vstd::prelude::*;

verus! {

/// The kernel facility's error codes.
///
/// Declared with its variants visible, so that the mapping below can
/// be stated and proved variant by variant.
#[verifier::external_type_specification]
pub struct ExKeyError(linux_keyutils::KeyError);

/// What a caller of this store can observe going wrong.
#[derive(Debug)]
pub enum Error {
    /// Nothing is retrievable under this description right now.
    NoEntry,
    /// Caller-supplied data was rejected: the field name and the reason.
    Invalid(String, String),
    /// A stored secret read as a password was not UTF-8: the secret.
    BadEncoding(Vec<u8>),
    /// The keyring subsystem itself could not be reached.
    NoStorageAccess(linux_keyutils::KeyError),
    /// Any other kernel failure, with its cause.
    PlatformFailure(linux_keyutils::KeyError),
}

/// Whether `e` is an `Invalid` error for `field`, with `reason`.
pub open spec fn is_invalid(e: Error, field: Seq<char>, reason: Seq<char>) -> bool {
    match e {
        Error::Invalid(f, r) => f@ == field && r@ == reason,
        _ => false,
    }
}

/// Whether `e` is how the kernel error `k` surfaces to callers.
///
/// The kernel reports the same caller-visible condition ("nothing retrievable
/// here") with several codes depending on where in invalidation processing a
/// call lands, so does-not-exist, revoked, expired and access-denied all
/// become `NoEntry`. Access denied is reported this way rather than as
/// `NoStorageAccess` because a key the caller may not search for is, to the
/// caller, a key that is not there.
pub open spec fn surfaces_as(k: linux_keyutils::KeyError, e: Error) -> bool {
    match k {
        linux_keyutils::KeyError::KeyDoesNotExist => e == Error::NoEntry,
        linux_keyutils::KeyError::KeyRevoked => e == Error::NoEntry,
        linux_keyutils::KeyError::KeyExpired => e == Error::NoEntry,
        linux_keyutils::KeyError::AccessDenied => e == Error::NoEntry,
        linux_keyutils::KeyError::InvalidDescription => is_invalid(
            e,
            "description"@,
            "rejected by the platform"@,
        ),
        linux_keyutils::KeyError::InvalidArguments => is_invalid(
            e,
            "password"@,
            "rejected by the platform"@,
        ),
        other => e == Error::PlatformFailure(other),
    }
}

/// Whether `r` is the kernel outcome `k` with its error mapped.
pub open spec fn lifts<T>(k: Result<T, linux_keyutils::KeyError>, r: Result<T, Error>) -> bool {
    match k {
        Ok(v) => r == Ok::<T, Error>(v),
        Err(ke) => r is Err && surfaces_as(ke, r->Err_0),
    }
}

impl Error {
    /// Maps a kernel error into the caller-visible taxonomy.
    pub fn from_kernel(k: linux_keyutils::KeyError) -> (e: Error)
        ensures
            surfaces_as(k, e),
    {
        match k {
            linux_keyutils::KeyError::KeyDoesNotExist
            | linux_keyutils::KeyError::KeyRevoked
            | linux_keyutils::KeyError::KeyExpired
            | linux_keyutils::KeyError::AccessDenied => Error::NoEntry,
            linux_keyutils::KeyError::InvalidDescription => Error::Invalid(
                "description".to_string(),
                "rejected by the platform".to_string(),
            ),
            linux_keyutils::KeyError::InvalidArguments => Error::Invalid(
                "password".to_string(),
                "rejected by the platform".to_string(),
            ),
            other => Error::PlatformFailure(other),
        }
    }
}

/// Maps the error of a kernel outcome, keeping a success as it is.
pub fn lift<T>(k: Result<T, linux_keyutils::KeyError>) -> (r: Result<T, Error>)
    ensures
        lifts(k, r),
{
    match k {
        Ok(v) => Ok(v),
        Err(ke) => Err(Error::from_kernel(ke)),
    }
}

} // verus!
