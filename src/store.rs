//! The store: configuration of how descriptions are derived, and the entry
//! point that builds credential records.
use crate::attributes::{
    attribute_allowed,
    configured,
    find_value,
    key_name,
    value_fits,
    lemma_found_is_configured,
    lists_pairs,
    parse_attributes,
};
use crate::cred::{record_outcome, Cred};
use crate::description::Identity;
use crate::error::Error;
use keyring_core::api::CredentialPersistence;
use std::collections::HashMap;
use std::sync::Arc;
use vstd::prelude::*;

verus! {

/// How long the backing storage keeps credentials.
#[verifier::external_type_specification]
pub struct ExCredentialPersistence(keyring_core::api::CredentialPersistence);

/// The character that stands for a decimal digit.
pub open spec fn digit_char(d: nat) -> char {
    if d == 0 { '0' }
    else if d == 1 { '1' }
    else if d == 2 { '2' }
    else if d == 3 { '3' }
    else if d == 4 { '4' }
    else if d == 5 { '5' }
    else if d == 6 { '6' }
    else if d == 7 { '7' }
    else if d == 8 { '8' }
    else { '9' }
}

/// The decimal numeral of `n`, without leading zeros.
pub open spec fn decimal(n: nat) -> Seq<char>
    decreases n,
{
    if n < 10 {
        seq![digit_char(n)]
    } else {
        decimal(n / 10) + seq![digit_char(n % 10)]
    }
}

/// The last `width` decimal digits of `n`, with leading zeros.
pub open spec fn padded(n: nat, width: nat) -> Seq<char>
    decreases width,
{
    if width == 0 {
        Seq::empty()
    } else {
        padded(n / 10, (width - 1) as nat) + seq![digit_char(n % 10)]
    }
}

/// The identity text of a store made `secs` seconds and `nanos` nanoseconds
/// away from the Unix epoch.
pub open spec fn id_text(secs: nat, nanos: nat) -> Seq<char> {
    "Linux keyutils store, instantiated at "@ + decimal(secs) + "."@ + padded(nanos, 9)
}

/// Relies on std::time::SystemTime::now: how far the current time is from
/// the Unix epoch (before or after it), as whole seconds and the nanoseconds
/// beyond them.
#[verifier::external_body]
fn time_from_epoch() -> (r: (u64, u32))
    ensures
        r.1 < 1_000_000_000,
{
    let now = std::time::SystemTime::now();
    let elapsed = match now.duration_since(std::time::UNIX_EPOCH) {
        Ok(d) => d,
        Err(e) => e.duration(),
    };
    (elapsed.as_secs(), elapsed.subsec_nanos())
}

fn digit_str(d: u64) -> (r: &'static str)
    requires
        d < 10,
    ensures
        r@ == seq![digit_char(d as nat)],
{
    proof {
        reveal_strlit("0");
        reveal_strlit("1");
        reveal_strlit("2");
        reveal_strlit("3");
        reveal_strlit("4");
        reveal_strlit("5");
        reveal_strlit("6");
        reveal_strlit("7");
        reveal_strlit("8");
        reveal_strlit("9");
    }
    let r = if d == 0 { "0" }
    else if d == 1 { "1" }
    else if d == 2 { "2" }
    else if d == 3 { "3" }
    else if d == 4 { "4" }
    else if d == 5 { "5" }
    else if d == 6 { "6" }
    else if d == 7 { "7" }
    else if d == 8 { "8" }
    else { "9" };
    assert(r@ =~= seq![digit_char(d as nat)]);
    r
}

/// Appends the decimal numeral of `n`.
fn push_decimal(s: &mut String, n: u64)
    ensures
        final(s)@ == old(s)@ + decimal(n as nat),
    decreases n,
{
    if n >= 10 {
        push_decimal(s, n / 10);
    }
    s.append(digit_str(n % 10));
    assert(final(s)@ =~= old(s)@ + decimal(n as nat));
}

/// Appends the last `width` decimal digits of `n`, with leading zeros.
fn push_padded(s: &mut String, n: u64, width: u64)
    ensures
        final(s)@ == old(s)@ + padded(n as nat, width as nat),
    decreases width,
{
    if width > 0 {
        push_padded(s, n / 10, width - 1);
        s.append(digit_str(n % 10));
    }
    assert(final(s)@ =~= old(s)@ + padded(n as nat, width as nat));
}

/// The key specifications of a store's configuration.
pub open spec fn store_keys() -> Seq<&'static str> {
    seq!["prefix", "divider", "suffix", "*service_no_divider"]
}

/// Whether (`k`, `v`) is a valid configuration option: one of the three
/// delimiters with any value, or the flag with "true" or "false".
pub open spec fn store_option_accepted(k: Seq<char>, v: Seq<char>) -> bool {
    ||| k == "prefix"@
    ||| k == "divider"@
    ||| k == "suffix"@
    ||| k == "service_no_divider"@ && (v == "true"@ || v == "false"@)
}

/// Whether every option of `m` is valid.
pub open spec fn store_config_accepted(m: Map<&str, &str>) -> bool {
    forall|k: &str| #[trigger] m.contains_key(k) ==> store_option_accepted(k@, m[k]@)
}

/// Whether (`k`, `v`) is a valid entry modifier: only the description is.
pub open spec fn modifier_accepted(k: Seq<char>) -> bool {
    k == "description"@
}

/// Whether every modifier of `m` is valid.
pub open spec fn modifiers_accepted(m: Map<&str, &str>) -> bool {
    forall|k: &str| #[trigger] m.contains_key(k) ==> modifier_accepted(k@)
}

/// The description modifier of `mods`, if there is one.
pub open spec fn modifier_target(mods: Option<&HashMap<&str, &str>>) -> Option<Seq<char>> {
    match mods {
        Some(m) => if exists|k: &str| #[trigger] m@.contains_key(k) && k@ == "description"@ {
            Some(configured(m@, "description"@, Seq::empty()))
        } else {
            None
        },
        None => None,
    }
}

proof fn lemma_store_keys()
    ensures
        forall|i: int, j: int|
            0 <= i < j < store_keys().len() ==> key_name(store_keys()[i]@) != key_name(
                store_keys()[j]@,
            ),
        forall|k: Seq<char>, v: Seq<char>|
            attribute_allowed(store_keys(), k, v) <==> #[trigger] store_option_accepted(k, v),
{
    reveal_strlit("prefix");
    reveal_strlit("divider");
    reveal_strlit("suffix");
    reveal_strlit("*service_no_divider");
    reveal_strlit("service_no_divider");
    reveal_strlit("true");
    reveal_strlit("false");
    let keys = store_keys();
    assert(key_name(keys[0]@) == "prefix"@);
    assert(key_name(keys[1]@) == "divider"@);
    assert(key_name(keys[2]@) == "suffix"@);
    assert(key_name(keys[3]@) =~= "service_no_divider"@);
    assert(forall|i: int, j: int|
        0 <= i < j < keys.len() ==> key_name(keys[i]@).len() != key_name(keys[j]@).len()
            || key_name(keys[i]@)[0] != key_name(keys[j]@)[0]);
    assert forall|k: Seq<char>, v: Seq<char>|
        attribute_allowed(keys, k, v) <==> #[trigger] store_option_accepted(k, v) by {
        if store_option_accepted(k, v) {
            if k == "prefix"@ {
                assert(key_name(keys[0]@) == k && value_fits(keys[0]@, v));
            } else if k == "divider"@ {
                assert(key_name(keys[1]@) == k && value_fits(keys[1]@, v));
            } else if k == "suffix"@ {
                assert(key_name(keys[2]@) == k && value_fits(keys[2]@, v));
            } else {
                assert(key_name(keys[3]@) == k && value_fits(keys[3]@, v));
            }
        }
    }
}

proof fn lemma_modifier_keys()
    ensures
        forall|k: Seq<char>, v: Seq<char>|
            #[trigger] attribute_allowed(seq!["description"], k, v) <==> modifier_accepted(k),
{
    reveal_strlit("description");
    let keys: Seq<&str> = seq!["description"];
    assert(key_name(keys[0]@) == "description"@);
    assert forall|k: Seq<char>, v: Seq<char>|
        #[trigger] attribute_allowed(keys, k, v) <==> modifier_accepted(k) by {
        if modifier_accepted(k) {
            assert(key_name(keys[0]@) == k && value_fits(keys[0]@, v));
        }
    }
}

/// The value of the option `name` listed in `pairs`, or `default`.
fn value_or(pairs: &Vec<(String, String)>, m: Ghost<Map<&str, &str>>, name: &str, default: &str) -> (r: String)
    requires
        lists_pairs(pairs@, m@),
    ensures
        r@ == configured(m@, name@, default@),
{
    let found = find_value(pairs, name);
    proof {
        lemma_found_is_configured(pairs@, m@, name@, default@, found);
    }
    match found {
        Some(v) => v,
        None => default.to_string(),
    }
}

/// The configuration of a keyutils credential store.
#[derive(Debug)]
pub struct Store {
    /// Identity of this instance, for diagnostics.
    pub id: String,
    /// Prefix, divider and suffix of derived descriptions.
    pub delimiters: [String; 3],
    /// Whether a service holding the divider is refused.
    pub service_no_divider: bool,
}

impl Store {
    /// Makes a store with the given delimiters and flag, and an identity
    /// taken from the current time.
    pub fn new_internal(delimiters: [String; 3], service_no_divider: bool) -> (r: Arc<Self>)
        ensures
            r.delimiters == delimiters,
            r.service_no_divider == service_no_divider,
            exists|secs: nat, nanos: nat| nanos < 1_000_000_000 && r.id@ == id_text(secs, nanos),
    {
        let (secs, nanos) = time_from_epoch();
        let mut id = "Linux keyutils store, instantiated at ".to_string();
        push_decimal(&mut id, secs);
        id.append(".");
        push_padded(&mut id, nanos as u64, 9);
        assert(id@ == id_text(secs as nat, nanos as nat));
        Arc::new(Store { id, delimiters, service_no_divider })
    }

    /// Makes the default store: prefix `keyring:`, divider `@`, no suffix,
    /// and services holding the divider accepted.
    pub fn new() -> (r: Result<Arc<Self>, Error>)
        ensures
            r is Ok,
            r->Ok_0.delimiters@[0]@ == "keyring:"@,
            r->Ok_0.delimiters@[1]@ == "@"@,
            r->Ok_0.delimiters@[2]@ == ""@,
            !r->Ok_0.service_no_divider,
    {
        Ok(
            Self::new_internal(
                ["keyring:".to_string(), "@".to_string(), "".to_string()],
                false,
            ),
        )
    }

    /// Makes a store from configuration options: `prefix`, `divider` and
    /// `suffix` (by default `keyring:`, `@` and nothing), and
    /// `service_no_divider` ("true" or "false", by default "false"). Any
    /// other option, or another value of the flag, is refused.
    pub fn new_with_configuration(config: &HashMap<&str, &str>) -> (r: Result<Arc<Self>, Error>)
        ensures
            r is Ok <==> store_config_accepted(config@),
            r is Err ==> exists|k: &str|
                #[trigger] config@.contains_key(k) && !store_option_accepted(k@, config@[k]@)
                    && r->Err_0 is Invalid && r->Err_0->Invalid_0@ == k@,
            r is Ok ==> {
                &&& r->Ok_0.delimiters@[0]@ == configured(config@, "prefix"@, "keyring:"@)
                &&& r->Ok_0.delimiters@[1]@ == configured(config@, "divider"@, "@"@)
                &&& r->Ok_0.delimiters@[2]@ == configured(config@, "suffix"@, ""@)
                &&& r->Ok_0.service_no_divider == (configured(
                    config@,
                    "service_no_divider"@,
                    "false"@,
                ) == "true"@)
            },
    {
        let keys: [&str; 4] = ["prefix", "divider", "suffix", "*service_no_divider"];
        proof {
            lemma_store_keys();
            assert(keys@ =~= store_keys());
        }
        let pairs = match parse_attributes(keys.as_slice(), Some(config)) {
            Ok(pairs) => pairs,
            Err((key, reason)) => return Err(Error::Invalid(key, reason)),
        };
        let ghost m = config@;
        let prefix = value_or(&pairs, Ghost(m), "prefix", "keyring:");
        let divider = value_or(&pairs, Ghost(m), "divider", "@");
        let suffix = value_or(&pairs, Ghost(m), "suffix", "");
        let flag = value_or(&pairs, Ghost(m), "service_no_divider", "false");
        let service_no_divider = flag == "true".to_string();
        Ok(Self::new_internal([prefix, divider, suffix], service_no_divider))
    }

    /// Builds the record of the credential for `service` and `user`.
    ///
    /// The one modifier is `description`, which gives the description
    /// verbatim instead of deriving it; any other modifier is refused. No
    /// kernel key is made: setting a secret does that.
    pub fn build(&self, service: &str, user: &str, modifiers: Option<&HashMap<&str, &str>>) -> (r: Result<Cred, Error>)
        ensures
            modifiers is Some && !modifiers_accepted(modifiers->Some_0@) ==> r is Err && exists|k: &str|
                #[trigger] modifiers->Some_0@.contains_key(k) && !modifier_accepted(k@)
                    && r->Err_0 is Invalid && r->Err_0->Invalid_0@ == k@,
            modifiers is None || modifiers_accepted(modifiers->Some_0@) ==> record_outcome(
                self.identity_for(modifier_target(modifiers), service@, user@),
                r,
            ),
    {
        let keys: [&str; 1] = ["description"];
        proof {
            lemma_modifier_keys();
            assert(keys@ =~= seq!["description"]);
            reveal_strlit("description");
            assert(key_name(keys@[0]@) == "description"@);
        }
        let pairs = match parse_attributes(keys.as_slice(), modifiers) {
            Ok(pairs) => pairs,
            Err((key, reason)) => return Err(Error::Invalid(key, reason)),
        };
        let found = find_value(&pairs, "description");
        proof {
            if let Some(m) = modifiers {
                lemma_found_is_configured(pairs@, m@, "description"@, Seq::empty(), found);
            }
        }
        let target = match &found {
            Some(d) => Some(d.as_str()),
            None => None,
        };
        Cred::build_from_specifiers(target, &self.delimiters, self.service_no_divider, service, user)
    }

    /// The identity of a credential of this store.
    pub open spec fn identity_for(&self, target: Option<Seq<char>>, service: Seq<char>, user: Seq<char>) -> Identity {
        Identity {
            target,
            prefix: self.delimiters@[0]@,
            divider: self.delimiters@[1]@,
            suffix: self.delimiters@[2]@,
            service_no_divider: self.service_no_divider,
            service,
            user,
        }
    }

    /// The fixed vendor string of this store.
    pub fn vendor(&self) -> (r: String)
        ensures
            r@ == "Linux keyutils, https://crates.io/crates/linux-keyutils-keyring-store"@,
    {
        "Linux keyutils, https://crates.io/crates/linux-keyutils-keyring-store".to_string()
    }

    /// The identity of this store instance.
    pub fn id(&self) -> (r: String)
        ensures
            r@ == self.id@,
    {
        self.id.clone()
    }

    /// Credentials live in kernel memory, so they are lost on reboot.
    pub fn persistence(&self) -> (r: CredentialPersistence)
        ensures
            r == CredentialPersistence::UntilReboot,
    {
        CredentialPersistence::UntilReboot
    }
}

} // verus!
