//! Authorization policies: the generic policy record, whose shape depends on
//! its `type` and whose specific settings travel as a string-to-string
//! `config` map, and the typed policies it refines into.
//!
//! Refining a record checks its type, takes each setting that the typed
//! policy declares out of `config` (decoding the ones that hold JSON), then
//! clears `config`: leftover settings are tolerated, and reported to the
//! caller of `check_policy_config`.
use vstd::prelude::*;

use crate::error::{ErrorKind, KeycloakError, deserialize};
use crate::error::opt_view;
use crate::json::{
    array_text, joined, json_bool_value, json_items, json_members, json_quoted, json_string_value,
    member, member_spec, member_texts, object_text, quote, raw_texts, read_bool, read_string,
    split_array, split_object, write_array, write_object,
};

verus! {

/// The generic policy record.
#[derive(Debug, Clone)]
pub struct PolicyRepresentation {
    pub id: Option<String>,
    pub name: Option<String>,
    pub description: Option<String>,
    pub type_: Option<String>,
    pub policies: Option<Vec<String>>,
    pub resources: Option<Vec<String>>,
    pub scopes: Option<Vec<String>>,
    pub logic: Option<String>,
    pub decision_strategy: Option<String>,
    pub owner: Option<String>,
    /// Settings specific to the policy's type, as (key, value) pairs.
    pub config: Vec<(String, String)>,
}

impl PolicyRepresentation {
    /// The settings, as (key, value) texts.
    pub open spec fn spec_config(&self) -> Seq<(Seq<char>, Seq<char>)> {
        member_texts(self.config@)
    }

    /// Each key of `config` occurs once, as in the map it stands for.
    pub open spec fn wf(&self) -> bool {
        distinct_keys(self.spec_config())
    }

    /// Whether `self` is `p` with no settings left, all else unchanged.
    pub open spec fn is_cleared_of(self, p: PolicyRepresentation) -> bool {
        self == (PolicyRepresentation { config: self.config, ..p }) && self.config@.len() == 0
    }
}

/// Why a record could not be refined.
pub enum Failure {
    MissingField(Seq<char>),
    WrongType(Seq<char>, Seq<char>),
    Deserialize,
}

/// Whether `e` reports `f`.
pub open spec fn reports(e: KeycloakError, f: Failure) -> bool {
    match f {
        Failure::MissingField(name) => match e.kind {
            ErrorKind::MissingField(n) => n@ == name,
            _ => false,
        },
        Failure::WrongType(expected, actual) => match e.kind {
            ErrorKind::WrongType(x, a) => x@ == expected && a@ == actual,
            _ => false,
        },
        Failure::Deserialize => e.kind is Deserialize,
    }
}

/// What is wrong with the type of `p` when `expected` is wanted, if anything.
pub open spec fn type_failure(p: PolicyRepresentation, expected: Seq<char>) -> Option<Failure> {
    match p.type_ {
        None => Some(Failure::MissingField("type"@)),
        Some(t) => if t@ == expected {
            None
        } else {
            Some(Failure::WrongType(expected, t@))
        },
    }
}

/// No two of the settings share a key.
pub open spec fn distinct_keys(ms: Seq<(Seq<char>, Seq<char>)>) -> bool {
    forall|i: int, j: int| 0 <= i < j < ms.len() ==> #[trigger] ms[i].0 != #[trigger] ms[j].0
}

/// The settings with every entry for `key` taken out.
pub open spec fn without_key(ms: Seq<(Seq<char>, Seq<char>)>, key: Seq<char>) -> Seq<
    (Seq<char>, Seq<char>),
>
    decreases ms.len(),
{
    if ms.len() == 0 {
        ms
    } else if ms.last().0 == key {
        without_key(ms.drop_last(), key)
    } else {
        without_key(ms.drop_last(), key).push(ms.last())
    }
}

proof fn lemma_without_key_lacks(ms: Seq<(Seq<char>, Seq<char>)>, key: Seq<char>, x: Seq<char>)
    requires
        forall|j: int| 0 <= j < ms.len() ==> #[trigger] ms[j].0 != x,
    ensures
        forall|i: int| 0 <= i < without_key(ms, key).len() ==> #[trigger] without_key(ms, key)[i].0 != x,
    decreases ms.len(),
{
    if ms.len() > 0 {
        let rest = ms.drop_last();
        assert forall|j: int| 0 <= j < rest.len() implies #[trigger] rest[j].0 != x by {
            assert(rest[j] == ms[j]);
        }
        lemma_without_key_lacks(rest, key, x);
        let last = ms.last();
        assert(last == ms[ms.len() - 1]);
        if last.0 != key {
            let w = without_key(rest, key);
            assert forall|i: int| 0 <= i < w.push(last).len() implies #[trigger] w.push(last)[i].0
                != x by {
                if i < w.len() {
                    assert(w.push(last)[i] == w[i]);
                }
            }
        }
    }
}

/// Taking a key out keeps the keys distinct.
pub proof fn lemma_without_key_distinct(ms: Seq<(Seq<char>, Seq<char>)>, key: Seq<char>)
    requires
        distinct_keys(ms),
    ensures
        distinct_keys(without_key(ms, key)),
    decreases ms.len(),
{
    if ms.len() > 0 {
        let rest = ms.drop_last();
        assert(distinct_keys(rest)) by {
            assert forall|i: int, j: int| 0 <= i < j < rest.len() implies #[trigger] rest[i].0
                != #[trigger] rest[j].0 by {
                assert(rest[i] == ms[i] && rest[j] == ms[j]);
            }
        }
        lemma_without_key_distinct(rest, key);
        if ms.last().0 != key {
            let last = ms.last();
            assert forall|j: int| 0 <= j < rest.len() implies #[trigger] rest[j].0 != last.0 by {
                assert(rest[j] == ms[j]);
                assert(last == ms[ms.len() - 1]);
            }
            lemma_without_key_lacks(rest, key, last.0);
            let w = without_key(rest, key);
            assert forall|i: int, j: int| 0 <= i < j < w.push(last).len() implies #[trigger] w.push(
                last,
            )[i].0 != #[trigger] w.push(last)[j].0 by {
                if j == w.len() {
                    assert(w.push(last)[i] == w[i]);
                } else {
                    assert(w.push(last)[i] == w[i] && w.push(last)[j] == w[j]);
                }
            }
        }
    }
}

/// Checks that `policy` carries the type `expected`.
pub fn check_policy_type(policy: &PolicyRepresentation, expected_type: &str) -> (r: Result<
    (),
    KeycloakError,
>)
    ensures
        match type_failure(*policy, expected_type@) {
            None => r is Ok,
            Some(f) => r is Err && reports(r->Err_0, f),
        },
{
    proof {
        reveal_strlit("type");
    }
    match &policy.type_ {
        None => Err(KeycloakError::new_kind(ErrorKind::MissingField(String::from_str("type")))),
        Some(policy_type) => {
            let expected = String::from_str(expected_type);
            if *policy_type == expected {
                Ok(())
            } else {
                Err(
                    KeycloakError::new_kind(
                        ErrorKind::WrongType(expected, policy_type.clone()),
                    ),
                )
            }
        },
    }
}

/// Takes the setting `field` out of `policy.config`. Fails with
/// `MissingField("config.<field>")`, leaving `policy` as it was, when the
/// setting is absent.
pub fn get_policy_config_field(policy: &mut PolicyRepresentation, field: &str) -> (r: Result<
    String,
    KeycloakError,
>)
    ensures
        match member_spec(old(policy).spec_config(), field@) {
            None => r is Err && reports(r->Err_0, Failure::MissingField("config."@ + field@))
                && *final(policy) == *old(policy),
            Some(v) => r is Ok && r->Ok_0@ == v && (old(policy).wf() ==> final(policy).wf())
                && final(policy).spec_config() == without_key(
                old(policy).spec_config(),
                field@,
            ) && *final(policy) == (PolicyRepresentation {
                config: final(policy).config,
                ..*old(policy)
            }),
        },
{
    let found = match member(&policy.config, field) {
        None => {
            let mut name = String::from_str("config.");
            name.append(field);
            return Err(KeycloakError::new_kind(ErrorKind::MissingField(name)));
        },
        Some(v) => v.clone(),
    };
    let wanted = String::from_str(field);
    let mut kept: Vec<(String, String)> = Vec::new();
    let mut i: usize = 0;
    while i < policy.config.len()
        invariant
            i <= policy.config@.len(),
            wanted@ == field@,
            member_texts(kept@) == without_key(member_texts(policy.config@).take(i as int), field@),
        decreases policy.config@.len() - i,
    {
        let ghost before = member_texts(policy.config@).take(i as int);
        assert(member_texts(policy.config@).take(i + 1).drop_last() =~= before);
        if policy.config[i].0 != wanted {
            let entry = (policy.config[i].0.clone(), policy.config[i].1.clone());
            kept.push(entry);
            assert(member_texts(kept@) =~= member_texts(kept@).drop_last().push(
                (entry.0@, entry.1@),
            ));
        }
        i = i + 1;
    }
    assert(member_texts(policy.config@).take(i as int) =~= member_texts(policy.config@));
    proof {
        if policy.wf() {
            lemma_without_key_distinct(policy.spec_config(), field@);
        }
    }
    policy.config = kept;
    Ok(found)
}

/// The keys of the settings.
pub open spec fn config_keys(ms: Seq<(Seq<char>, Seq<char>)>) -> Seq<Seq<char>> {
    ms.map_values(|m: (Seq<char>, Seq<char>)| m.0)
}

/// Clears the settings of `policy` once the typed policy has taken what it
/// declares. Gives the keys that were left over, joined by `", "` (empty
/// when none was).
pub fn check_policy_config(policy: &mut PolicyRepresentation) -> (r: String)
    ensures
        r@ == joined(config_keys(old(policy).spec_config()), ", "@),
        final(policy).is_cleared_of(*old(policy)),
        final(policy).wf(),
{
    let mut keys: Vec<String> = Vec::new();
    let mut i: usize = 0;
    while i < policy.config.len()
        invariant
            i <= policy.config@.len(),
            keys@.len() == i,
            forall|j: int| 0 <= j < i ==> #[trigger] keys@[j]@ == policy.config@[j].0@,
        decreases policy.config@.len() - i,
    {
        keys.push(policy.config[i].0.clone());
        i = i + 1;
    }
    assert(raw_texts(keys@) =~= config_keys(member_texts(policy.config@)));
    let leftover = crate::json::join(&keys, ", ");
    policy.config = Vec::new();
    leftover
}

/// Each text decoded by `f`; `None` as soon as one of them does not decode.
pub open spec fn decode_all<X>(items: Seq<Seq<char>>, f: spec_fn(Seq<char>) -> Option<X>) -> Option<
    Seq<X>,
>
    decreases items.len(),
{
    if items.len() == 0 {
        Some(Seq::empty())
    } else {
        match decode_all(items.drop_last(), f) {
            None => None,
            Some(xs) => match f(items.last()) {
                None => None,
                Some(x) => Some(xs.push(x)),
            },
        }
    }
}

/// The strings of a JSON array of strings.
pub open spec fn string_list_of(text: Seq<char>) -> Option<Seq<Seq<char>>> {
    match json_items(text) {
        None => None,
        Some(items) => decode_all(items, |t: Seq<char>| json_string_value(t)),
    }
}

/// The (id, required) of a JSON object with a string member `id` and an
/// optional boolean member `required` (false when absent).
pub open spec fn definition_of(text: Seq<char>) -> Option<(Seq<char>, bool)> {
    match json_members(text) {
        None => None,
        Some(ms) => match member_spec(ms, "id"@) {
            None => None,
            Some(i) => match json_string_value(i) {
                None => None,
                Some(id) => match member_spec(ms, "required"@) {
                    None => Some((id, false)),
                    Some(b) => match json_bool_value(b) {
                        None => None,
                        Some(required) => Some((id, required)),
                    },
                },
            },
        },
    }
}

/// The definitions of a JSON array of such objects.
pub open spec fn definitions_of(text: Seq<char>) -> Option<Seq<(Seq<char>, bool)>> {
    match json_items(text) {
        None => None,
        Some(items) => decode_all(items, |t: Seq<char>| definition_of(t)),
    }
}

/// A decoding failure with no further cause.
fn malformed() -> (r: KeycloakError)
    ensures
        r.kind is Deserialize,
{
    KeycloakError::new_kind(ErrorKind::Deserialize)
}

/// Decodes a JSON array of strings.
pub fn decode_string_list(text: &str) -> (r: Result<Vec<String>, KeycloakError>)
    ensures
        match string_list_of(text@) {
            None => r is Err && r->Err_0.kind is Deserialize,
            Some(v) => r is Ok && raw_texts(r->Ok_0@) == v,
        },
{
    let items = match split_array(text) {
        Err(e) => return Err(deserialize(e)),
        Ok(items) => items,
    };
    let ghost f = |t: Seq<char>| json_string_value(t);
    let mut out: Vec<String> = Vec::new();
    let mut i: usize = 0;
    while i < items.len()
        invariant
            i <= items@.len(),
            json_items(text@) == Some(raw_texts(items@)),
            forall|t: Seq<char>| #[trigger] f(t) == json_string_value(t),
            f == (|t: Seq<char>| json_string_value(t)),
            decode_all(raw_texts(items@).take(i as int), f) == Some(raw_texts(out@)),
        decreases items@.len() - i,
    {
        let ghost prefix = raw_texts(items@).take(i + 1);
        assert(prefix.drop_last() =~= raw_texts(items@).take(i as int));
        assert(prefix.last() == items@[i as int]@);
        assert(f(prefix.last()) == json_string_value(items@[i as int]@));
        match read_string(items[i].as_str()) {
            Err(e) => {
                proof {
                    assert(decode_all(prefix, f) is None);
                    lemma_decode_all_prefix(raw_texts(items@), f, i + 1);
                }
                return Err(deserialize(e));
            },
            Ok(s) => {
                out.push(s);
                assert(raw_texts(out@) =~= raw_texts(out@).drop_last().push(s@));
            },
        }
        i = i + 1;
    }
    assert(raw_texts(items@).take(i as int) =~= raw_texts(items@));
    Ok(out)
}

/// When a prefix fails to decode, so does the whole.
pub proof fn lemma_decode_all_prefix<X>(items: Seq<Seq<char>>, f: spec_fn(Seq<char>) -> Option<X>, k: int)
    requires
        0 <= k <= items.len(),
        decode_all(items.take(k), f) is None,
    ensures
        decode_all(items, f) is None,
    decreases items.len() - k,
{
    if k < items.len() {
        assert(items.take(k + 1).drop_last() =~= items.take(k));
        lemma_decode_all_prefix(items, f, k + 1);
    } else {
        assert(items.take(k) =~= items);
    }
}

/// Decodes one definition: a JSON object with a string `id` and an optional
/// boolean `required`.
pub fn decode_definition(text: &str) -> (r: Result<(String, bool), KeycloakError>)
    ensures
        match definition_of(text@) {
            None => r is Err && r->Err_0.kind is Deserialize,
            Some(d) => r is Ok && r->Ok_0.0@ == d.0 && r->Ok_0.1 == d.1,
        },
{
    proof {
        reveal_strlit("id");
        reveal_strlit("required");
    }
    let members = match split_object(text) {
        Err(e) => return Err(deserialize(e)),
        Ok(m) => m,
    };
    let id = match member(&members, "id") {
        None => return Err(malformed()),
        Some(raw) => match read_string(raw.as_str()) {
            Err(e) => return Err(deserialize(e)),
            Ok(id) => id,
        },
    };
    let required = match member(&members, "required") {
        None => false,
        Some(raw) => match read_bool(raw.as_str()) {
            Err(e) => return Err(deserialize(e)),
            Ok(b) => b,
        },
    };
    Ok((id, required))
}

/// Decodes a JSON boolean.
pub fn decode_bool(text: &str) -> (r: Result<bool, KeycloakError>)
    ensures
        match json_bool_value(text@) {
            None => r is Err && r->Err_0.kind is Deserialize,
            Some(b) => r == Ok::<bool, KeycloakError>(b),
        },
{
    match read_bool(text) {
        Err(e) => Err(deserialize(e)),
        Ok(b) => Ok(b),
    }
}

/// A role that a role policy (or a group policy) refers to.
#[derive(Debug, Clone)]
pub struct RolePolicyRepresentationRoleDefinition {
    pub id: String,
    pub required: bool,
}

/// A client scope that a client-scope policy refers to.
#[derive(Debug, Clone)]
pub struct ClientScopeRepresentationClientScopeDefinition {
    pub id: String,
    pub required: bool,
}

/// A group that a group policy refers to.
#[derive(Debug, Clone)]
pub struct GroupPolicyRepresentationGroupDefinition {
    pub id: String,
    pub extend_children: bool,
}

pub open spec fn role_def_views(v: Seq<RolePolicyRepresentationRoleDefinition>) -> Seq<(Seq<char>, bool)> {
    v.map_values(|d: RolePolicyRepresentationRoleDefinition| (d.id@, d.required))
}

pub open spec fn scope_def_views(v: Seq<ClientScopeRepresentationClientScopeDefinition>) -> Seq<
    (Seq<char>, bool),
> {
    v.map_values(|d: ClientScopeRepresentationClientScopeDefinition| (d.id@, d.required))
}

pub open spec fn pair_views(v: Seq<(String, bool)>) -> Seq<(Seq<char>, bool)> {
    v.map_values(|d: (String, bool)| (d.0@, d.1))
}

/// Decodes a JSON array of definitions into (id, required) pairs.
pub fn decode_definitions(text: &str) -> (r: Result<Vec<(String, bool)>, KeycloakError>)
    ensures
        match definitions_of(text@) {
            None => r is Err && r->Err_0.kind is Deserialize,
            Some(ds) => r is Ok && pair_views(r->Ok_0@) == ds,
        },
{
    let items = match split_array(text) {
        Err(e) => return Err(deserialize(e)),
        Ok(items) => items,
    };
    let ghost f = |t: Seq<char>| definition_of(t);
    let mut out: Vec<(String, bool)> = Vec::new();
    let mut i: usize = 0;
    while i < items.len()
        invariant
            i <= items@.len(),
            json_items(text@) == Some(raw_texts(items@)),
            forall|t: Seq<char>| #[trigger] f(t) == definition_of(t),
            f == (|t: Seq<char>| definition_of(t)),
            decode_all(raw_texts(items@).take(i as int), f) == Some(pair_views(out@)),
        decreases items@.len() - i,
    {
        let ghost prefix = raw_texts(items@).take(i + 1);
        assert(prefix.drop_last() =~= raw_texts(items@).take(i as int));
        assert(prefix.last() == items@[i as int]@);
        assert(f(prefix.last()) == definition_of(items@[i as int]@));
        match decode_definition(items[i].as_str()) {
            Err(e) => {
                proof {
                    assert(decode_all(prefix, f) is None);
                    lemma_decode_all_prefix(raw_texts(items@), f, i + 1);
                }
                return Err(e);
            },
            Ok(d) => {
                out.push(d);
                assert(pair_views(out@) =~= pair_views(out@).drop_last().push((d.0@, d.1)));
            },
        }
        i = i + 1;
    }
    assert(raw_texts(items@).take(i as int) =~= raw_texts(items@));
    Ok(out)
}

/// Decodes a JSON array of role definitions.
pub fn decode_role_definitions(text: &str) -> (r: Result<Vec<RolePolicyRepresentationRoleDefinition>, KeycloakError>)
    ensures
        match definitions_of(text@) {
            None => r is Err && r->Err_0.kind is Deserialize,
            Some(ds) => r is Ok && role_def_views(r->Ok_0@) == ds,
        },
{
    let pairs = match decode_definitions(text) {
        Err(e) => return Err(e),
        Ok(p) => p,
    };
    let mut out: Vec<RolePolicyRepresentationRoleDefinition> = Vec::new();
    let mut i: usize = 0;
    while i < pairs.len()
        invariant
            i <= pairs@.len(),
            role_def_views(out@) == pair_views(pairs@).take(i as int),
        decreases pairs@.len() - i,
    {
        let id = pairs[i].0.clone();
        let def = RolePolicyRepresentationRoleDefinition { id, required: pairs[i].1 };
        assert((def.id@, def.required) == pair_views(pairs@)[i as int]);
        let ghost before = out@;
        out.push(def);
        assert(role_def_views(out@) =~= role_def_views(before).push((def.id@, def.required)));
        assert(pair_views(pairs@).take(i + 1) =~= pair_views(pairs@).take(i as int).push(
            pair_views(pairs@)[i as int],
        ));
        i = i + 1;
    }
    assert(pair_views(pairs@).take(i as int) =~= pair_views(pairs@));
    Ok(out)
}

/// Decodes a JSON array of client-scope definitions.
pub fn decode_client_scope_definitions(text: &str) -> (r: Result<Vec<ClientScopeRepresentationClientScopeDefinition>, KeycloakError>)
    ensures
        match definitions_of(text@) {
            None => r is Err && r->Err_0.kind is Deserialize,
            Some(ds) => r is Ok && scope_def_views(r->Ok_0@) == ds,
        },
{
    let pairs = match decode_definitions(text) {
        Err(e) => return Err(e),
        Ok(p) => p,
    };
    let mut out: Vec<ClientScopeRepresentationClientScopeDefinition> = Vec::new();
    let mut i: usize = 0;
    while i < pairs.len()
        invariant
            i <= pairs@.len(),
            scope_def_views(out@) == pair_views(pairs@).take(i as int),
        decreases pairs@.len() - i,
    {
        let id = pairs[i].0.clone();
        let def = ClientScopeRepresentationClientScopeDefinition { id, required: pairs[i].1 };
        assert((def.id@, def.required) == pair_views(pairs@)[i as int]);
        let ghost before = out@;
        out.push(def);
        assert(scope_def_views(out@) =~= scope_def_views(before).push((def.id@, def.required)));
        assert(pair_views(pairs@).take(i + 1) =~= pair_views(pairs@).take(i as int).push(
            pair_views(pairs@)[i as int],
        ));
        i = i + 1;
    }
    assert(pair_views(pairs@).take(i as int) =~= pair_views(pairs@));
    Ok(out)
}

/// The text of the setting `key` of `p`, or the failure its absence causes.
pub open spec fn setting(p: PolicyRepresentation, key: Seq<char>) -> Result<Seq<char>, Failure> {
    match member_spec(p.spec_config(), key) {
        None => Err(Failure::MissingField("config."@ + key)),
        Some(v) => Ok(v),
    }
}

/// The value that `f` decodes from the setting, or the failure met on the way.
pub open spec fn decoded<X>(s: Result<Seq<char>, Failure>, f: spec_fn(Seq<char>) -> Option<X>) -> Result<
    X,
    Failure,
> {
    match s {
        Err(e) => Err(e),
        Ok(t) => match f(t) {
            None => Err(Failure::Deserialize),
            Some(x) => Ok(x),
        },
    }
}

/// Taking one setting out leaves the others where they were.
pub proof fn lemma_member_without(ms: Seq<(Seq<char>, Seq<char>)>, gone: Seq<char>, key: Seq<char>)
    requires
        gone != key,
    ensures
        member_spec(without_key(ms, gone), key) == member_spec(ms, key),
    decreases ms.len(),
{
    if ms.len() > 0 {
        lemma_member_without(ms.drop_last(), gone, key);
        if ms.last().0 != gone {
            let w = without_key(ms.drop_last(), gone);
            assert(w.push(ms.last()).drop_last() =~= w);
        }
    }
}

/// Refinement of a record into an aggregate policy: only its type is checked.
pub open spec fn aggregate_policy_of(p: PolicyRepresentation) -> Result<(), Failure> {
    match type_failure(p, "aggregate"@) {
        Some(f) => Err(f),
        None => Ok(()),
    }
}

/// Refinement into a client policy: the client ids held, as a JSON array, by `clients`.
pub open spec fn client_policy_of(p: PolicyRepresentation) -> Result<Seq<Seq<char>>, Failure> {
    match type_failure(p, "client"@) {
        Some(f) => Err(f),
        None => decoded(setting(p, "clients"@), |t: Seq<char>| string_list_of(t)),
    }
}

/// Refinement into a client-scope policy: the definitions held by `clientScopes`.
pub open spec fn client_scope_policy_of(p: PolicyRepresentation) -> Result<Seq<(Seq<char>, bool)>, Failure> {
    match type_failure(p, "client-scope"@) {
        Some(f) => Err(f),
        None => decoded(setting(p, "clientScopes"@), |t: Seq<char>| definitions_of(t)),
    }
}

/// Refinement into a group policy: the definitions held by `groups`, then
/// the text of `groupsClaim`.
pub open spec fn group_policy_of(p: PolicyRepresentation) -> Result<(Seq<(Seq<char>, bool)>, Seq<char>), Failure> {
    match type_failure(p, "group"@) {
        Some(f) => Err(f),
        None => match decoded(setting(p, "groups"@), |t: Seq<char>| definitions_of(t)) {
            Err(f) => Err(f),
            Ok(groups) => match setting(p, "groupsClaim"@) {
                Err(f) => Err(f),
                Ok(claim) => Ok((groups, claim)),
            },
        },
    }
}

/// Refinement into a script policy: the text of `code`.
pub open spec fn js_policy_of(p: PolicyRepresentation) -> Result<Seq<char>, Failure> {
    match type_failure(p, "js"@) {
        Some(f) => Err(f),
        None => setting(p, "code"@),
    }
}

/// Refinement into a regex policy: the texts of `targetClaim` and `pattern`,
/// then the boolean held by `targetContextAttributes`.
pub open spec fn regex_policy_of(p: PolicyRepresentation) -> Result<(Seq<char>, Seq<char>, bool), Failure> {
    match type_failure(p, "regex"@) {
        Some(f) => Err(f),
        None => match setting(p, "targetClaim"@) {
            Err(f) => Err(f),
            Ok(claim) => match setting(p, "pattern"@) {
                Err(f) => Err(f),
                Ok(pattern) => match decoded(
                    setting(p, "targetContextAttributes"@),
                    |t: Seq<char>| json_bool_value(t),
                ) {
                    Err(f) => Err(f),
                    Ok(b) => Ok((claim, pattern, b)),
                },
            },
        },
    }
}

/// Refinement into a role policy: the definitions held by `roles`.
pub open spec fn role_policy_of(p: PolicyRepresentation) -> Result<Seq<(Seq<char>, bool)>, Failure> {
    match type_failure(p, "role"@) {
        Some(f) => Err(f),
        None => decoded(setting(p, "roles"@), |t: Seq<char>| definitions_of(t)),
    }
}

/// Refinement into a user policy: the user ids held, as a JSON array, by `users`.
pub open spec fn user_policy_of(p: PolicyRepresentation) -> Result<Seq<Seq<char>>, Failure> {
    match type_failure(p, "user"@) {
        Some(f) => Err(f),
        None => decoded(setting(p, "users"@), |t: Seq<char>| string_list_of(t)),
    }
}

#[derive(Debug, Clone)]
pub struct AggregatePolicyRepresentation {
    pub policy: PolicyRepresentation,
}

#[derive(Debug, Clone)]
pub struct ClientPolicyRepresentation {
    pub clients: Vec<String>,
    pub policy: PolicyRepresentation,
}

#[derive(Debug, Clone)]
pub struct ClientScopePolicyRepresentation {
    pub client_scopes: Vec<ClientScopeRepresentationClientScopeDefinition>,
    pub policy: PolicyRepresentation,
}

#[derive(Debug, Clone)]
pub struct GroupPolicyRepresentation {
    pub groups: Vec<RolePolicyRepresentationRoleDefinition>,
    pub groups_claim: String,
    pub policy: PolicyRepresentation,
}

#[derive(Debug, Clone)]
pub struct JsPolicyRepresentation {
    pub code: String,
    pub policy: PolicyRepresentation,
}

#[derive(Debug, Clone)]
pub struct RegexPolicyRepresentation {
    pub target_claim: String,
    pub pattern: String,
    pub target_context_attributes: bool,
    pub policy: PolicyRepresentation,
}

#[derive(Debug, Clone)]
pub struct RolePolicyRepresentation {
    pub roles: Vec<RolePolicyRepresentationRoleDefinition>,
    pub policy: PolicyRepresentation,
}

#[derive(Debug, Clone)]
pub struct UserPolicyRepresentation {
    pub users: Vec<String>,
    pub policy: PolicyRepresentation,
}

impl AggregatePolicyRepresentation {
    /// Refines a record whose type is `aggregate`; gives with it the keys of the settings
    /// left over, joined by `", "`.
    pub fn try_from_reporting(value: PolicyRepresentation) -> (r: Result<(Self, String), KeycloakError>)
        ensures
            match aggregate_policy_of(value) {
                Err(f) => r is Err && reports(r->Err_0, f),
                Ok(_) => r is Ok && r->Ok_0.0.policy.is_cleared_of(value)
                    && r->Ok_0.1@ == joined(config_keys(value.spec_config()), ", "@),
            },
    {
        let mut value = value;
        if let Err(e) = check_policy_type(&value, "aggregate") {
            return Err(e);
        }
        let leftover = check_policy_config(&mut value);
        Ok((AggregatePolicyRepresentation { policy: value }, leftover))
    }

    /// Refines a record whose type is `aggregate`.
    pub fn try_from(value: PolicyRepresentation) -> (r: Result<Self, KeycloakError>)
        ensures
            match aggregate_policy_of(value) {
                Err(f) => r is Err && reports(r->Err_0, f),
                Ok(_) => r is Ok && r->Ok_0.policy.is_cleared_of(value),
            },
    {
        match Self::try_from_reporting(value) {
            Ok((policy, _)) => Ok(policy),
            Err(e) => Err(e),
        }
    }
}

impl ClientPolicyRepresentation {
    /// Refines a record whose type is `client`; gives with it the keys of the settings
    /// left over, joined by `", "`.
    pub fn try_from_reporting(value: PolicyRepresentation) -> (r: Result<(Self, String), KeycloakError>)
        ensures
            match client_policy_of(value) {
                Err(f) => r is Err && reports(r->Err_0, f),
                Ok(clients) => r is Ok && raw_texts(r->Ok_0.0.clients@) == clients
                    && r->Ok_0.0.policy.is_cleared_of(value)
                    && r->Ok_0.1@ == joined(config_keys(without_key(value.spec_config(), "clients"@)), ", "@),
            },
    {
        let mut value = value;
        if let Err(e) = check_policy_type(&value, "client") {
            return Err(e);
        }
        let raw = match get_policy_config_field(&mut value, "clients") {
            Err(e) => return Err(e),
            Ok(raw) => raw,
        };
        let clients = match decode_string_list(raw.as_str()) {
            Err(e) => return Err(e),
            Ok(v) => v,
        };
        let leftover = check_policy_config(&mut value);
        Ok((ClientPolicyRepresentation { clients, policy: value }, leftover))
    }

    /// Refines a record whose type is `client`.
    pub fn try_from(value: PolicyRepresentation) -> (r: Result<Self, KeycloakError>)
        ensures
            match client_policy_of(value) {
                Err(f) => r is Err && reports(r->Err_0, f),
                Ok(clients) => r is Ok && raw_texts(r->Ok_0.clients@) == clients
                    && r->Ok_0.policy.is_cleared_of(value),
            },
    {
        match Self::try_from_reporting(value) {
            Ok((policy, _)) => Ok(policy),
            Err(e) => Err(e),
        }
    }
}

impl ClientScopePolicyRepresentation {
    /// Refines a record whose type is `client-scope`; gives with it the keys of the settings
    /// left over, joined by `", "`.
    pub fn try_from_reporting(value: PolicyRepresentation) -> (r: Result<(Self, String), KeycloakError>)
        ensures
            match client_scope_policy_of(value) {
                Err(f) => r is Err && reports(r->Err_0, f),
                Ok(scopes) => r is Ok && scope_def_views(r->Ok_0.0.client_scopes@) == scopes
                    && r->Ok_0.0.policy.is_cleared_of(value)
                    && r->Ok_0.1@ == joined(config_keys(without_key(value.spec_config(), "clientScopes"@)), ", "@),
            },
    {
        let mut value = value;
        if let Err(e) = check_policy_type(&value, "client-scope") {
            return Err(e);
        }
        let raw = match get_policy_config_field(&mut value, "clientScopes") {
            Err(e) => return Err(e),
            Ok(raw) => raw,
        };
        let client_scopes = match decode_client_scope_definitions(raw.as_str()) {
            Err(e) => return Err(e),
            Ok(v) => v,
        };
        let leftover = check_policy_config(&mut value);
        Ok((ClientScopePolicyRepresentation { client_scopes, policy: value }, leftover))
    }

    /// Refines a record whose type is `client-scope`.
    pub fn try_from(value: PolicyRepresentation) -> (r: Result<Self, KeycloakError>)
        ensures
            match client_scope_policy_of(value) {
                Err(f) => r is Err && reports(r->Err_0, f),
                Ok(scopes) => r is Ok && scope_def_views(r->Ok_0.client_scopes@) == scopes
                    && r->Ok_0.policy.is_cleared_of(value),
            },
    {
        match Self::try_from_reporting(value) {
            Ok((policy, _)) => Ok(policy),
            Err(e) => Err(e),
        }
    }
}

impl GroupPolicyRepresentation {
    /// Refines a record whose type is `group`; gives with it the keys of the settings
    /// left over, joined by `", "`.
    pub fn try_from_reporting(value: PolicyRepresentation) -> (r: Result<(Self, String), KeycloakError>)
        ensures
            match group_policy_of(value) {
                Err(f) => r is Err && reports(r->Err_0, f),
                Ok(g) => r is Ok && role_def_views(r->Ok_0.0.groups@) == g.0
                    && r->Ok_0.0.groups_claim@ == g.1 && r->Ok_0.0.policy.is_cleared_of(value)
                    && r->Ok_0.1@ == joined(config_keys(without_key(without_key(value.spec_config(), "groups"@), "groupsClaim"@)), ", "@),
            },
    {
        proof {
            reveal_strlit("groups");
            reveal_strlit("groupsClaim");
        }
        let ghost given = value;
        let mut value = value;
        if let Err(e) = check_policy_type(&value, "group") {
            return Err(e);
        }
        let raw = match get_policy_config_field(&mut value, "groups") {
            Err(e) => return Err(e),
            Ok(raw) => raw,
        };
        let groups = match decode_role_definitions(raw.as_str()) {
            Err(e) => return Err(e),
            Ok(v) => v,
        };
        proof {
            lemma_member_without(given.spec_config(), "groups"@, "groupsClaim"@);
        }
        let groups_claim = match get_policy_config_field(&mut value, "groupsClaim") {
            Err(e) => return Err(e),
            Ok(v) => v,
        };
        let leftover = check_policy_config(&mut value);
        Ok((GroupPolicyRepresentation { groups, groups_claim, policy: value }, leftover))
    }

    /// Refines a record whose type is `group`.
    pub fn try_from(value: PolicyRepresentation) -> (r: Result<Self, KeycloakError>)
        ensures
            match group_policy_of(value) {
                Err(f) => r is Err && reports(r->Err_0, f),
                Ok(g) => r is Ok && role_def_views(r->Ok_0.groups@) == g.0
                    && r->Ok_0.groups_claim@ == g.1 && r->Ok_0.policy.is_cleared_of(value),
            },
    {
        match Self::try_from_reporting(value) {
            Ok((policy, _)) => Ok(policy),
            Err(e) => Err(e),
        }
    }
}

impl JsPolicyRepresentation {
    /// Refines a record whose type is `js`; gives with it the keys of the settings
    /// left over, joined by `", "`.
    pub fn try_from_reporting(value: PolicyRepresentation) -> (r: Result<(Self, String), KeycloakError>)
        ensures
            match js_policy_of(value) {
                Err(f) => r is Err && reports(r->Err_0, f),
                Ok(code) => r is Ok && r->Ok_0.0.code@ == code && r->Ok_0.0.policy.is_cleared_of(value)
                    && r->Ok_0.1@ == joined(config_keys(without_key(value.spec_config(), "code"@)), ", "@),
            },
    {
        let mut value = value;
        if let Err(e) = check_policy_type(&value, "js") {
            return Err(e);
        }
        let code = match get_policy_config_field(&mut value, "code") {
            Err(e) => return Err(e),
            Ok(v) => v,
        };
        let leftover = check_policy_config(&mut value);
        Ok((JsPolicyRepresentation { code, policy: value }, leftover))
    }

    /// Refines a record whose type is `js`.
    pub fn try_from(value: PolicyRepresentation) -> (r: Result<Self, KeycloakError>)
        ensures
            match js_policy_of(value) {
                Err(f) => r is Err && reports(r->Err_0, f),
                Ok(code) => r is Ok && r->Ok_0.code@ == code && r->Ok_0.policy.is_cleared_of(value),
            },
    {
        match Self::try_from_reporting(value) {
            Ok((policy, _)) => Ok(policy),
            Err(e) => Err(e),
        }
    }
}

impl RegexPolicyRepresentation {
    /// Refines a record whose type is `regex`; gives with it the keys of the settings
    /// left over, joined by `", "`.
    pub fn try_from_reporting(value: PolicyRepresentation) -> (r: Result<(Self, String), KeycloakError>)
        ensures
            match regex_policy_of(value) {
                Err(f) => r is Err && reports(r->Err_0, f),
                Ok(x) => r is Ok && r->Ok_0.0.target_claim@ == x.0 && r->Ok_0.0.pattern@ == x.1
                    && r->Ok_0.0.target_context_attributes == x.2 && r->Ok_0.0.policy.is_cleared_of(value)
                    && r->Ok_0.1@ == joined(config_keys(without_key(
                        without_key(without_key(value.spec_config(), "targetClaim"@), "pattern"@),
                        "targetContextAttributes"@,
                    )), ", "@),
            },
    {
        proof {
            reveal_strlit("targetClaim");
            reveal_strlit("pattern");
            reveal_strlit("targetContextAttributes");
        }
        let ghost given = value;
        let mut value = value;
        if let Err(e) = check_policy_type(&value, "regex") {
            return Err(e);
        }
        let target_claim = match get_policy_config_field(&mut value, "targetClaim") {
            Err(e) => return Err(e),
            Ok(v) => v,
        };
        proof {
            lemma_member_without(given.spec_config(), "targetClaim"@, "pattern"@);
            lemma_member_without(given.spec_config(), "targetClaim"@, "targetContextAttributes"@);
        }
        let ghost after_claim = value;
        let pattern = match get_policy_config_field(&mut value, "pattern") {
            Err(e) => return Err(e),
            Ok(v) => v,
        };
        proof {
            lemma_member_without(after_claim.spec_config(), "pattern"@, "targetContextAttributes"@);
        }
        let raw = match get_policy_config_field(&mut value, "targetContextAttributes") {
            Err(e) => return Err(e),
            Ok(v) => v,
        };
        let target_context_attributes = match decode_bool(raw.as_str()) {
            Err(e) => return Err(e),
            Ok(b) => b,
        };
        let leftover = check_policy_config(&mut value);
        Ok((RegexPolicyRepresentation { target_claim, pattern, target_context_attributes, policy: value }, leftover))
    }

    /// Refines a record whose type is `regex`.
    pub fn try_from(value: PolicyRepresentation) -> (r: Result<Self, KeycloakError>)
        ensures
            match regex_policy_of(value) {
                Err(f) => r is Err && reports(r->Err_0, f),
                Ok(x) => r is Ok && r->Ok_0.target_claim@ == x.0 && r->Ok_0.pattern@ == x.1
                    && r->Ok_0.target_context_attributes == x.2 && r->Ok_0.policy.is_cleared_of(
                    value,
                ),
            },
    {
        match Self::try_from_reporting(value) {
            Ok((policy, _)) => Ok(policy),
            Err(e) => Err(e),
        }
    }
}

impl RolePolicyRepresentation {
    /// Refines a record whose type is `role`; gives with it the keys of the settings
    /// left over, joined by `", "`.
    pub fn try_from_reporting(value: PolicyRepresentation) -> (r: Result<(Self, String), KeycloakError>)
        ensures
            match role_policy_of(value) {
                Err(f) => r is Err && reports(r->Err_0, f),
                Ok(roles) => r is Ok && role_def_views(r->Ok_0.0.roles@) == roles
                    && r->Ok_0.0.policy.is_cleared_of(value)
                    && r->Ok_0.1@ == joined(config_keys(without_key(value.spec_config(), "roles"@)), ", "@),
            },
    {
        let mut value = value;
        if let Err(e) = check_policy_type(&value, "role") {
            return Err(e);
        }
        let raw = match get_policy_config_field(&mut value, "roles") {
            Err(e) => return Err(e),
            Ok(raw) => raw,
        };
        let roles = match decode_role_definitions(raw.as_str()) {
            Err(e) => return Err(e),
            Ok(v) => v,
        };
        let leftover = check_policy_config(&mut value);
        Ok((RolePolicyRepresentation { roles, policy: value }, leftover))
    }

    /// Refines a record whose type is `role`.
    pub fn try_from(value: PolicyRepresentation) -> (r: Result<Self, KeycloakError>)
        ensures
            match role_policy_of(value) {
                Err(f) => r is Err && reports(r->Err_0, f),
                Ok(roles) => r is Ok && role_def_views(r->Ok_0.roles@) == roles
                    && r->Ok_0.policy.is_cleared_of(value),
            },
    {
        match Self::try_from_reporting(value) {
            Ok((policy, _)) => Ok(policy),
            Err(e) => Err(e),
        }
    }
}

impl UserPolicyRepresentation {
    /// Refines a record whose type is `user`; gives with it the keys of the settings
    /// left over, joined by `", "`.
    pub fn try_from_reporting(value: PolicyRepresentation) -> (r: Result<(Self, String), KeycloakError>)
        ensures
            match user_policy_of(value) {
                Err(f) => r is Err && reports(r->Err_0, f),
                Ok(users) => r is Ok && raw_texts(r->Ok_0.0.users@) == users
                    && r->Ok_0.0.policy.is_cleared_of(value)
                    && r->Ok_0.1@ == joined(config_keys(without_key(value.spec_config(), "users"@)), ", "@),
            },
    {
        let mut value = value;
        if let Err(e) = check_policy_type(&value, "user") {
            return Err(e);
        }
        let raw = match get_policy_config_field(&mut value, "users") {
            Err(e) => return Err(e),
            Ok(raw) => raw,
        };
        let users = match decode_string_list(raw.as_str()) {
            Err(e) => return Err(e),
            Ok(v) => v,
        };
        let leftover = check_policy_config(&mut value);
        Ok((UserPolicyRepresentation { users, policy: value }, leftover))
    }

    /// Refines a record whose type is `user`.
    pub fn try_from(value: PolicyRepresentation) -> (r: Result<Self, KeycloakError>)
        ensures
            match user_policy_of(value) {
                Err(f) => r is Err && reports(r->Err_0, f),
                Ok(users) => r is Ok && raw_texts(r->Ok_0.users@) == users
                    && r->Ok_0.policy.is_cleared_of(value),
            },
    {
        match Self::try_from_reporting(value) {
            Ok((policy, _)) => Ok(policy),
            Err(e) => Err(e),
        }
    }
}

/// The strings, each as a JSON string literal.
pub open spec fn quoted_all(v: Seq<Seq<char>>) -> Seq<Seq<char>> {
    v.map_values(|t: Seq<char>| json_quoted(t))
}

/// A string member `key`, present when `v` is.
pub open spec fn opt_member(key: Seq<char>, v: Option<Seq<char>>) -> Seq<(Seq<char>, Seq<char>)> {
    match v {
        None => Seq::empty(),
        Some(t) => seq![(key, json_quoted(t))],
    }
}

pub open spec fn opt_list_view(v: Option<Vec<String>>) -> Option<Seq<Seq<char>>> {
    match v {
        None => None,
        Some(l) => Some(raw_texts(l@)),
    }
}

/// A member `key` holding an array of strings, present when `v` is.
pub open spec fn opt_list_member(key: Seq<char>, v: Option<Seq<Seq<char>>>) -> Seq<(Seq<char>, Seq<char>)> {
    match v {
        None => Seq::empty(),
        Some(l) => seq![(key, array_text(quoted_all(l)))],
    }
}

/// The `config` member: the settings as an object of strings, left out when there are none.
pub open spec fn config_member(config: Seq<(Seq<char>, Seq<char>)>) -> Seq<(Seq<char>, Seq<char>)> {
    if config.len() == 0 {
        Seq::empty()
    } else {
        seq![("config"@, object_text(config.map_values(|m: (Seq<char>, Seq<char>)| (m.0, json_quoted(m.1)))))]
    }
}

/// The members of the JSON object of a policy record, in order; absent
/// fields, and an empty `config`, are left out.
pub open spec fn policy_members(p: PolicyRepresentation) -> Seq<(Seq<char>, Seq<char>)> {
    opt_member("id"@, opt_view(p.id)) + opt_member("name"@, opt_view(p.name)) + opt_member(
        "description"@,
        opt_view(p.description),
    ) + opt_member("type"@, opt_view(p.type_)) + opt_list_member("policies"@, opt_list_view(p.policies))
        + opt_list_member("resources"@, opt_list_view(p.resources)) + opt_list_member(
        "scopes"@,
        opt_list_view(p.scopes),
    ) + opt_member("logic"@, opt_view(p.logic)) + opt_member(
        "decisionStrategy"@,
        opt_view(p.decision_strategy),
    ) + opt_member("owner"@, opt_view(p.owner)) + config_member(p.spec_config())
}

/// The JSON text of one definition.
pub open spec fn definition_text(d: (Seq<char>, bool)) -> Seq<char> {
    object_text(seq![("id"@, json_quoted(d.0)), ("required"@, if d.1 { "true"@ } else { "false"@ })])
}

/// The JSON text of a list of definitions.
pub open spec fn definitions_text(ds: Seq<(Seq<char>, bool)>) -> Seq<char> {
    array_text(ds.map_values(|d: (Seq<char>, bool)| definition_text(d)))
}

/// The members of the JSON object of a role policy: `roles`, then those of its record.
pub open spec fn role_policy_members(roles: Seq<(Seq<char>, bool)>, p: PolicyRepresentation) -> Seq<
    (Seq<char>, Seq<char>),
> {
    seq![("roles"@, definitions_text(roles))] + policy_members(p)
}

/// Quotes each string.
fn quote_all(v: &Vec<String>) -> (r: Vec<String>)
    ensures
        raw_texts(r@) == quoted_all(raw_texts(v@)),
{
    let mut out: Vec<String> = Vec::new();
    let mut i: usize = 0;
    while i < v.len()
        invariant
            i <= v@.len(),
            out@.len() == i,
            forall|j: int| 0 <= j < i ==> #[trigger] out@[j]@ == json_quoted(v@[j]@),
        decreases v@.len() - i,
    {
        out.push(quote(v[i].as_str()));
        i = i + 1;
    }
    assert(raw_texts(out@) =~= quoted_all(raw_texts(v@)));
    out
}

fn push_opt(members: &mut Vec<(String, String)>, key: &str, v: &Option<String>)
    ensures
        member_texts(final(members)@) == member_texts(old(members)@) + opt_member(key@, opt_view(*v)),
{
    if let Some(t) = v {
        let entry = (String::from_str(key), quote(t.as_str()));
        members.push(entry);
        assert(member_texts(members@) =~= member_texts(old(members)@) + opt_member(key@, opt_view(*v)));
    } else {
        assert(member_texts(members@) =~= member_texts(old(members)@) + opt_member(key@, opt_view(*v)));
    }
}

fn push_opt_list(members: &mut Vec<(String, String)>, key: &str, v: &Option<Vec<String>>)
    ensures
        member_texts(final(members)@) == member_texts(old(members)@) + opt_list_member(
            key@,
            opt_list_view(*v),
        ),
{
    if let Some(l) = v {
        let entry = (String::from_str(key), write_array(&quote_all(l)));
        members.push(entry);
        assert(member_texts(members@) =~= member_texts(old(members)@) + opt_list_member(
            key@,
            opt_list_view(*v),
        ));
    } else {
        assert(member_texts(members@) =~= member_texts(old(members)@) + opt_list_member(
            key@,
            opt_list_view(*v),
        ));
    }
}

impl PolicyRepresentation {
    /// The members of the record's JSON object, in order.
    pub fn members(&self) -> (r: Vec<(String, String)>)
        ensures
            member_texts(r@) == policy_members(*self),
    {
        let mut members: Vec<(String, String)> = Vec::new();
        assert(member_texts(members@) =~= Seq::empty());
        push_opt(&mut members, "id", &self.id);
        push_opt(&mut members, "name", &self.name);
        push_opt(&mut members, "description", &self.description);
        push_opt(&mut members, "type", &self.type_);
        push_opt_list(&mut members, "policies", &self.policies);
        push_opt_list(&mut members, "resources", &self.resources);
        push_opt_list(&mut members, "scopes", &self.scopes);
        push_opt(&mut members, "logic", &self.logic);
        push_opt(&mut members, "decisionStrategy", &self.decision_strategy);
        push_opt(&mut members, "owner", &self.owner);
        let ghost before = member_texts(members@);
        if self.config.len() > 0 {
            let mut settings: Vec<(String, String)> = Vec::new();
            let mut i: usize = 0;
            while i < self.config.len()
                invariant
                    i <= self.config@.len(),
                    settings@.len() == i,
                    forall|j: int|
                        0 <= j < i ==> #[trigger] settings@[j].0@ == self.config@[j].0@
                            && settings@[j].1@ == json_quoted(self.config@[j].1@),
                decreases self.config@.len() - i,
            {
                let entry = (self.config[i].0.clone(), quote(self.config[i].1.as_str()));
                settings.push(entry);
                assert(settings@[i as int] == entry);
                i = i + 1;
            }
            assert(member_texts(settings@) =~= self.spec_config().map_values(
                |m: (Seq<char>, Seq<char>)| (m.0, json_quoted(m.1)),
            ));
            proof {
                reveal_strlit("config");
            }
            members.push((String::from_str("config"), write_object(&settings)));
        }
        assert(member_texts(members@) =~= before + config_member(self.spec_config()));
        assert(policy_members(*self) =~= before + config_member(self.spec_config()));
        members
    }

    /// The record as a JSON object.
    pub fn to_json(&self) -> (r: String)
        ensures
            r@ == object_text(policy_members(*self)),
    {
        write_object(&self.members())
    }
}

impl RolePolicyRepresentationRoleDefinition {
    /// The definition as a JSON object.
    pub fn to_json(&self) -> (r: String)
        ensures
            r@ == definition_text((self.id@, self.required)),
    {
        let mut members: Vec<(String, String)> = Vec::new();
        members.push((String::from_str("id"), quote(self.id.as_str())));
        let flag = if self.required { "true" } else { "false" };
        members.push((String::from_str("required"), String::from_str(flag)));
        assert(member_texts(members@) =~= seq![
            ("id"@, json_quoted(self.id@)),
            ("required"@, if self.required { "true"@ } else { "false"@ }),
        ]);
        write_object(&members)
    }
}

impl RolePolicyRepresentation {
    /// The role policy as a JSON object: `roles`, then the members of its record.
    pub fn to_json(&self) -> (r: String)
        ensures
            r@ == object_text(role_policy_members(role_def_views(self.roles@), self.policy)),
    {
        let mut items: Vec<String> = Vec::new();
        let mut i: usize = 0;
        while i < self.roles.len()
            invariant
                i <= self.roles@.len(),
                items@.len() == i,
                forall|j: int|
                    0 <= j < i ==> #[trigger] items@[j]@ == definition_text(
                        (self.roles@[j].id@, self.roles@[j].required),
                    ),
            decreases self.roles@.len() - i,
        {
            items.push(self.roles[i].to_json());
            i = i + 1;
        }
        assert(raw_texts(items@) =~= role_def_views(self.roles@).map_values(
            |d: (Seq<char>, bool)| definition_text(d),
        ));
        let mut members: Vec<(String, String)> = Vec::new();
        members.push((String::from_str("roles"), write_array(&items)));
        let mut rest = self.policy.members();
        let ghost head = members@;
        let ghost tail = rest@;
        members.append(&mut rest);
        assert(member_texts(members@) =~= member_texts(head) + member_texts(tail));
        assert(member_texts(members@) =~= role_policy_members(role_def_views(self.roles@), self.policy));
        write_object(&members)
    }
}

/// Whether no member of `ms` has the key `key`.
pub open spec fn lacks_member(ms: Seq<(Seq<char>, Seq<char>)>, key: Seq<char>) -> bool {
    forall|i: int| 0 <= i < ms.len() ==> #[trigger] ms[i].0 != key
}

proof fn lemma_lacks_concat(a: Seq<(Seq<char>, Seq<char>)>, b: Seq<(Seq<char>, Seq<char>)>, key: Seq<char>)
    requires
        lacks_member(a, key),
        lacks_member(b, key),
    ensures
        lacks_member(a + b, key),
{
    assert forall|i: int| 0 <= i < (a + b).len() implies #[trigger] (a + b)[i].0 != key by {
        if i < a.len() {
            assert((a + b)[i] == a[i]);
        } else {
            assert((a + b)[i] == b[i - a.len()]);
        }
    }
}

/// A role policy refined from a record, and written back as JSON, carries a
/// `roles` member holding exactly the definitions that the record's `roles`
/// setting held, and no `config` member, whatever settings the record had.
pub proof fn lemma_role_policy_round_trip(p: PolicyRepresentation, q: PolicyRepresentation)
    requires
        role_policy_of(p) is Ok,
        q.is_cleared_of(p),
    ensures
        setting(p, "roles"@) is Ok,
        definitions_of(setting(p, "roles"@)->Ok_0) == Some(role_policy_of(p)->Ok_0),
        role_policy_members(role_policy_of(p)->Ok_0, q)[0] == ("roles"@, definitions_text(
            role_policy_of(p)->Ok_0,
        )),
        lacks_member(role_policy_members(role_policy_of(p)->Ok_0, q), "config"@),
{
    reveal_strlit("config");
    reveal_strlit("roles");
    reveal_strlit("id");
    reveal_strlit("name");
    reveal_strlit("description");
    reveal_strlit("type");
    reveal_strlit("policies");
    reveal_strlit("resources");
    reveal_strlit("scopes");
    reveal_strlit("logic");
    reveal_strlit("decisionStrategy");
    reveal_strlit("owner");
    let c = "config"@;
    assert("scopes"@[0] != c[0]);
    assert("roles"@ != c);
    assert("id"@ != c);
    assert("name"@ != c);
    assert("description"@ != c);
    assert("type"@ != c);
    assert("policies"@ != c);
    assert("resources"@ != c);
    assert("scopes"@ != c);
    assert("logic"@ != c);
    assert("decisionStrategy"@ != c);
    assert("owner"@ != c);
    assert(q.spec_config().len() == 0);
    let a = opt_member("id"@, opt_view(q.id));
    let b = opt_member("name"@, opt_view(q.name));
    let d = opt_member("description"@, opt_view(q.description));
    let t = opt_member("type"@, opt_view(q.type_));
    let po = opt_list_member("policies"@, opt_list_view(q.policies));
    let re = opt_list_member("resources"@, opt_list_view(q.resources));
    let sc = opt_list_member("scopes"@, opt_list_view(q.scopes));
    let lo = opt_member("logic"@, opt_view(q.logic));
    let ds = opt_member("decisionStrategy"@, opt_view(q.decision_strategy));
    let ow = opt_member("owner"@, opt_view(q.owner));
    let cf = config_member(q.spec_config());
    let head = seq![("roles"@, definitions_text(role_policy_of(p)->Ok_0))];
    assert(lacks_member(a, c));
    assert(lacks_member(b, c));
    assert(lacks_member(d, c));
    assert(lacks_member(t, c));
    assert(lacks_member(po, c));
    assert(lacks_member(re, c));
    assert(lacks_member(sc, c));
    assert(lacks_member(lo, c));
    assert(lacks_member(ds, c));
    assert(lacks_member(ow, c));
    assert(lacks_member(cf, c));
    assert(lacks_member(head, c));
    lemma_lacks_concat(a, b, c);
    lemma_lacks_concat(a + b, d, c);
    lemma_lacks_concat(a + b + d, t, c);
    lemma_lacks_concat(a + b + d + t, po, c);
    lemma_lacks_concat(a + b + d + t + po, re, c);
    lemma_lacks_concat(a + b + d + t + po + re, sc, c);
    lemma_lacks_concat(a + b + d + t + po + re + sc, lo, c);
    lemma_lacks_concat(a + b + d + t + po + re + sc + lo, ds, c);
    lemma_lacks_concat(a + b + d + t + po + re + sc + lo + ds, ow, c);
    lemma_lacks_concat(a + b + d + t + po + re + sc + lo + ds + ow, cf, c);
    assert(policy_members(q) == a + b + d + t + po + re + sc + lo + ds + ow + cf);
    lemma_lacks_concat(head, policy_members(q), c);
}

} // verus!
