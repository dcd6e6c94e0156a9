//! Deriving the kernel key description of a credential.
//!
//! A description is either an explicit target, taken verbatim, or
//! `prefix + user + divider + service + suffix`. This is the only place
//! where ambiguity of identities is guarded against.
use crate::error::{is_invalid, Error};
use vstd::prelude::*;

verus! {

/// Whether `p` occurs in `s` as a contiguous run.
pub open spec fn occurs_in(s: Seq<char>, p: Seq<char>) -> bool {
    exists|i: int| 0 <= i && i + p.len() <= s.len() && #[trigger] s.subrange(i, i + p.len()) == p
}

/// The description derived from a (service, user) pair.
pub open spec fn derived_description(
    prefix: Seq<char>,
    divider: Seq<char>,
    suffix: Seq<char>,
    service: Seq<char>,
    user: Seq<char>,
) -> Seq<char> {
    prefix + user + divider + service + suffix
}

/// The identity inputs of a description, as plain values.
pub struct Identity {
    pub target: Option<Seq<char>>,
    pub prefix: Seq<char>,
    pub divider: Seq<char>,
    pub suffix: Seq<char>,
    pub service_no_divider: bool,
    pub service: Seq<char>,
    pub user: Seq<char>,
}

/// The description for `id`: the target if there is one, else the derived one.
pub open spec fn description_of(id: Identity) -> Seq<char> {
    match id.target {
        Some(t) => t,
        None => derived_description(id.prefix, id.divider, id.suffix, id.service, id.user),
    }
}

/// Whether `id` is refused because its service holds the divider.
pub open spec fn service_refused(id: Identity) -> bool {
    id.target is None && id.service_no_divider && occurs_in(id.service, id.divider)
}

/// The identity that the executable arguments stand for.
pub open spec fn identity_of(
    target: Option<&str>,
    delimiters: &[String; 3],
    service_no_divider: bool,
    service: &str,
    user: &str,
) -> Identity {
    Identity {
        target: match target {
            Some(t) => Some(t@),
            None => None,
        },
        prefix: delimiters@[0]@,
        divider: delimiters@[1]@,
        suffix: delimiters@[2]@,
        service_no_divider,
        service: service@,
        user: user@,
    }
}

/// The outcome promised for `id`: the description and the retained
/// (user, service) specifiers, or the error.
pub open spec fn description_outcome(
    id: Identity,
    r: Result<(String, Option<(String, String)>), Error>,
) -> bool {
    if service_refused(id) {
        r is Err && is_invalid(r->Err_0, "service"@, "cannot contain delimiter"@)
    } else if description_of(id).len() == 0 {
        r is Err && is_invalid(r->Err_0, "description"@, "cannot be empty"@)
    } else {
        r is Ok && r->Ok_0.0@ == description_of(id) && match r->Ok_0.1 {
            Some(spec) => id.target is None && spec.0@ == id.user && spec.1@ == id.service,
            None => id.target is Some,
        }
    }
}

/// Whether no proper, non-empty prefix of `d` is also a suffix of `d`
/// (as holds of every single-character divider).
pub open spec fn border_free(d: Seq<char>) -> bool {
    forall|j: int| 0 < j < d.len() ==> #[trigger] d.subrange(0, j) != d.subrange(d.len() - j, d.len() as int)
}

proof fn lemma_unique_split(
    divider: Seq<char>,
    service1: Seq<char>,
    user1: Seq<char>,
    service2: Seq<char>,
    user2: Seq<char>,
)
    requires
        border_free(divider),
        !occurs_in(service1, divider),
        !occurs_in(service2, divider),
        service1.len() <= service2.len(),
        user1 + divider + service1 == user2 + divider + service2,
    ensures
        service1 == service2 && user1 == user2,
{
    let x = user1 + divider + service1;
    let y = user2 + divider + service2;
    let n = x.len() as int;
    let dl = divider.len() as int;
    let s1 = service1.len() as int;
    let s2 = service2.len() as int;
    assert(forall|i: int| 0 <= i < n ==> x[i] == y[i]);
    if s1 == s2 {
        assert(service1 =~= service2) by {
            assert forall|i: int| 0 <= i < s1 implies service1[i] == service2[i] by {
                assert(x[n - s1 + i] == service1[i]);
                assert(y[n - s2 + i] == service2[i]);
            }
        }
        assert(user1 =~= user2) by {
            assert forall|i: int| 0 <= i < user1.len() implies user1[i] == user2[i] by {
                assert(x[i] == user1[i]);
                assert(y[i] == user2[i]);
            }
        }
    } else if s2 >= s1 + dl {
        let k = s2 - s1 - dl;
        assert(service2.subrange(k, k + dl) =~= divider) by {
            assert forall|i: int| 0 <= i < dl implies service2[k + i] == divider[i] by {
                assert(y[n - s2 + k + i] == service2[k + i]);
                assert(x[n - s1 - dl + i] == divider[i]);
            }
        }
        assert(occurs_in(service2, divider));
    } else {
        let k = s2 - s1;
        let j = dl - k;
        let q1 = n - s1 - dl;
        let q2 = n - s2 - dl;
        assert(0 < j < dl);
        assert(divider.subrange(0, j) =~= divider.subrange(dl - j, dl)) by {
            assert forall|i: int| 0 <= i < j implies #[trigger] divider[i] == divider[k + i] by {
                assert(x[q1 + i] == divider[i]);
                assert(y[q2 + k + i] == divider[k + i]);
            }
        }
        assert(divider.subrange(0, j) != divider.subrange(dl - j, dl));
    }
}

/// Under `service_no_divider`, with a divider that has no proper prefix equal
/// to a suffix of its own, two distinct (service, user) pairs that are both
/// accepted never share a derived description.
pub proof fn lemma_distinct_identities_distinct_descriptions(
    prefix: Seq<char>,
    divider: Seq<char>,
    suffix: Seq<char>,
    service1: Seq<char>,
    user1: Seq<char>,
    service2: Seq<char>,
    user2: Seq<char>,
)
    requires
        border_free(divider),
        !occurs_in(service1, divider),
        !occurs_in(service2, divider),
        service1 != service2 || user1 != user2,
    ensures
        derived_description(prefix, divider, suffix, service1, user1) != derived_description(
            prefix,
            divider,
            suffix,
            service2,
            user2,
        ),
{
    let a = user1 + divider + service1;
    let b = user2 + divider + service2;
    let da = derived_description(prefix, divider, suffix, service1, user1);
    let db = derived_description(prefix, divider, suffix, service2, user2);
    assert(da =~= prefix + a + suffix);
    assert(db =~= prefix + b + suffix);
    if da == db {
        assert(a =~= da.subrange(prefix.len() as int, da.len() - suffix.len()));
        assert(b =~= db.subrange(prefix.len() as int, db.len() - suffix.len()));
        if service1.len() <= service2.len() {
            lemma_unique_split(divider, service1, user1, service2, user2);
        } else {
            lemma_unique_split(divider, service2, user2, service1, user1);
        }
    }
}

/// Relies on str::contains with a string pattern: whether `pattern` is a
/// substring of `s`.
#[verifier::external_body]
fn str_contains(s: &str, pattern: &str) -> (r: bool)
    ensures
        r == occurs_in(s@, pattern@),
{
    s.contains(pattern)
}

/// Builds the description (and, when derived, the specifiers) of a credential.
///
/// An explicit target is used verbatim; otherwise the description is
/// `delimiters[0] + user + delimiters[1] + service + delimiters[2]`, and the
/// service may not hold the divider when `service_no_divider` is set. An empty
/// description is refused in every case.
pub fn build_description(
    target: Option<&str>,
    delimiters: &[String; 3],
    service_no_divider: bool,
    service: &str,
    user: &str,
) -> (r: Result<(String, Option<(String, String)>), Error>)
    ensures
        description_outcome(identity_of(target, delimiters, service_no_divider, service, user), r),
{
    let (description, specifiers) = match target {
        Some(value) => (value.to_string(), None),
        None => {
            if service_no_divider && str_contains(service, delimiters[1].as_str()) {
                return Err(
                    Error::Invalid("service".to_string(), "cannot contain delimiter".to_string()),
                );
            }
            let mut d = delimiters[0].clone();
            d.append(user);
            d.append(delimiters[1].as_str());
            d.append(service);
            d.append(delimiters[2].as_str());
            (d, Some((user.to_string(), service.to_string())))
        },
    };
    if description.as_str().is_empty() {
        return Err(Error::Invalid("description".to_string(), "cannot be empty".to_string()));
    }
    Ok((description, specifiers))
}

} // verus!
