//! String-keyed configuration and modifier maps.
use vstd::prelude::*;
use std::collections::HashMap;

verus! {

/// The name that a key specification stands for: a leading `*` (a boolean
/// key) or `+` (a key whose value may not be empty) is not part of it.
pub open spec fn key_name(spec: Seq<char>) -> Seq<char> {
    if spec.len() > 0 && (spec[0] == '*' || spec[0] == '+') {
        spec.drop_first()
    } else {
        spec
    }
}

/// Whether `v` is a value that the key specification `spec` admits.
pub open spec fn value_fits(spec: Seq<char>, v: Seq<char>) -> bool {
    &&& spec.len() > 0 && spec[0] == '*' ==> v == "true"@ || v == "false"@
    &&& spec.len() > 0 && spec[0] == '+' ==> v.len() > 0
}

/// Whether the pair (`k`, `v`) is admitted by one of the key specifications.
pub open spec fn attribute_allowed(keys: Seq<&str>, k: Seq<char>, v: Seq<char>) -> bool {
    exists|i: int| 0 <= i < keys.len() && #[trigger] key_name(keys[i]@) == k && value_fits(keys[i]@, v)
}

/// Whether every pair of `m` is admitted by one of the key specifications.
pub open spec fn attributes_accepted(keys: Seq<&str>, m: Map<&str, &str>) -> bool {
    forall|k: &str| #[trigger] m.contains_key(k) ==> attribute_allowed(keys, k@, m[k]@)
}

/// Whether `v` lists exactly the pairs of `m`, each key once.
pub open spec fn lists_pairs(v: Seq<(String, String)>, m: Map<&str, &str>) -> bool {
    &&& forall|j: int|
        0 <= j < v.len() ==> exists|k: &str|
            #[trigger] m.contains_key(k) && k@ == (#[trigger] v[j]).0@ && m[k]@ == v[j].1@
    &&& forall|k: &str|
        #[trigger] m.contains_key(k) ==> exists|j: int|
            0 <= j < v.len() && #[trigger] v[j].0@ == k@ && v[j].1@ == m[k]@
    &&& forall|i: int, j: int| 0 <= i < j < v.len() ==> v[i].0@ != v[j].0@
}

/// The value of the key named `name` in `m`, or `default` when there is none.
pub open spec fn configured(m: Map<&str, &str>, name: Seq<char>, default: Seq<char>) -> Seq<char> {
    if exists|k: &str| #[trigger] m.contains_key(k) && k@ == name {
        m[choose|k: &str| #[trigger] m.contains_key(k) && k@ == name]@
    } else {
        default
    }
}

/// Relies on keyring_core::attributes::parse_attributes: with no map it
/// accepts and returns nothing; with a map it accepts it exactly when each
/// pair is admitted by a key specification, and then returns every pair of
/// it. A refusal is `Invalid` for a key that was not admitted, with the
/// reason.
#[verifier::external_body]
pub(crate) fn parse_attributes(keys: &[&str], attrs: Option<&HashMap<&str, &str>>) -> (r: Result<Vec<(String, String)>, (String, String)>)
    requires
        forall|i: int, j: int|
            0 <= i < j < keys@.len() ==> key_name(keys@[i]@) != key_name(keys@[j]@),
    ensures
        attrs is None ==> r is Ok && r->Ok_0@.len() == 0,
        attrs is Some ==> (r is Ok <==> attributes_accepted(keys@, attrs->Some_0@)),
        attrs is Some && r is Ok ==> lists_pairs(r->Ok_0@, attrs->Some_0@),
        attrs is Some && r is Err ==> exists|k: &str| #[trigger] attrs->Some_0@.contains_key(k) && k@ == r->Err_0.0@ && !attribute_allowed(keys@, k@, attrs->Some_0@[k]@),
{
    match keyring_core::attributes::parse_attributes(keys, attrs) {
        Ok(map) => Ok(map.into_iter().collect()),
        Err(keyring_core::Error::Invalid(key, reason)) => Err((key, reason)),
        Err(other) => Err((String::new(), other.to_string())),
    }
}

/// The value of the pair whose key is `name`, if there is one.
pub fn find_value(pairs: &Vec<(String, String)>, name: &str) -> (r: Option<String>)
    ensures
        r is Some <==> exists|j: int| 0 <= j < pairs@.len() && #[trigger] pairs@[j].0@ == name@,
        r is Some ==> exists|j: int|
            0 <= j < pairs@.len() && #[trigger] pairs@[j].0@ == name@ && pairs@[j].1@ == r->Some_0@,
{
    let wanted = name.to_string();
    let mut i: usize = 0;
    while i < pairs.len()
        invariant
            i <= pairs@.len(),
            wanted@ == name@,
            forall|j: int| 0 <= j < i ==> #[trigger] pairs@[j].0@ != name@,
        decreases pairs@.len() - i,
    {
        if pairs[i].0 == wanted {
            return Some(pairs[i].1.clone());
        }
        i += 1;
    }
    None
}

/// What `find_value` finds in a listing of `m` is the configured value.
pub proof fn lemma_found_is_configured(
    v: Seq<(String, String)>,
    m: Map<&str, &str>,
    name: Seq<char>,
    default: Seq<char>,
    found: Option<String>,
)
    requires
        lists_pairs(v, m),
        found is Some <==> exists|j: int| 0 <= j < v.len() && #[trigger] v[j].0@ == name,
        found is Some ==> exists|j: int| 0 <= j < v.len() && #[trigger] v[j].0@ == name && v[j].1@ == found->Some_0@,
    ensures
        found is Some <==> exists|k: &str| #[trigger] m.contains_key(k) && k@ == name,
        configured(m, name, default) == match found {
            Some(s) => s@,
            None => default,
        },
{
    if exists|k: &str| #[trigger] m.contains_key(k) && k@ == name {
        let k = choose|k: &str| #[trigger] m.contains_key(k) && k@ == name;
        let j2 = choose|j: int| 0 <= j < v.len() && #[trigger] v[j].0@ == k@ && v[j].1@ == m[k]@;
        assert(found is Some);
        let j = choose|j: int| 0 <= j < v.len() && #[trigger] v[j].0@ == name && v[j].1@ == found->Some_0@;
        if j != j2 {
            if j < j2 {
                assert(v[j].0@ != v[j2].0@);
            } else {
                assert(v[j2].0@ != v[j].0@);
            }
        }
    } else {
        if found is Some {
            let j = choose|j: int| 0 <= j < v.len() && #[trigger] v[j].0@ == name;
            assert(exists|k: &str| m.contains_key(k) && k@ == v[j].0@ && m[k]@ == v[j].1@);
        }
    }
}

} // verus!
