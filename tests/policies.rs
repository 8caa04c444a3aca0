use keycloak_api::policies::{
    check_policy_config, check_policy_type, decode_bool, decode_definition, decode_string_list,
    get_policy_config_field, AggregatePolicyRepresentation, ClientPolicyRepresentation,
    ClientScopePolicyRepresentation, GroupPolicyRepresentation, JsPolicyRepresentation,
    PolicyRepresentation, RegexPolicyRepresentation, RolePolicyRepresentation,
    UserPolicyRepresentation,
};
use keycloak_api::ErrorKind;

fn record(kind: Option<&str>, config: &[(&str, &str)]) -> PolicyRepresentation {
    PolicyRepresentation {
        id: None,
        name: None,
        description: None,
        type_: kind.map(|k| k.to_string()),
        policies: None,
        resources: None,
        scopes: None,
        logic: None,
        decision_strategy: None,
        owner: None,
        config: config.iter().map(|(k, v)| (k.to_string(), v.to_string())).collect(),
    }
}

#[test]
fn role_policy_round_trip() {
    let roles = r#"[{"id":"r1","required":true}]"#;
    let p = record(Some("role"), &[("roles", roles)]);
    assert_eq!(
        p.to_json(),
        r#"{"type":"role","config":{"roles":"[{\"id\":\"r1\",\"required\":true}]"}}"#
    );
    let role = RolePolicyRepresentation::try_from(p).unwrap();
    assert_eq!(role.roles.len(), 1);
    assert_eq!(role.roles[0].id, "r1");
    assert!(role.roles[0].required);
    assert!(role.policy.config.is_empty());
    let text = role.to_json();
    assert_eq!(text, r#"{"roles":[{"id":"r1","required":true}],"type":"role"}"#);
    assert!(!text.contains("config"));
}

#[test]
fn user_record_is_not_a_role_policy() {
    let p = record(Some("user"), &[("users", r#"["u1"]"#)]);
    let err = RolePolicyRepresentation::try_from(p).unwrap_err();
    match err.kind {
        ErrorKind::WrongType(expected, actual) => {
            assert_eq!(expected, "role");
            assert_eq!(actual, "user");
        }
        _ => panic!("expected a wrong type"),
    }
}

#[test]
fn missing_type_and_missing_setting() {
    let err = RolePolicyRepresentation::try_from(record(None, &[])).unwrap_err();
    assert!(matches!(err.kind, ErrorKind::MissingField(ref f) if f == "type"));
    let err = RolePolicyRepresentation::try_from(record(Some("role"), &[])).unwrap_err();
    assert!(matches!(err.kind, ErrorKind::MissingField(ref f) if f == "config.roles"));
    let err = RolePolicyRepresentation::try_from(record(Some("role"), &[("roles", "[{")]))
        .unwrap_err();
    assert!(matches!(err.kind, ErrorKind::Deserialize));
    let err = RolePolicyRepresentation::try_from(record(Some("role"), &[("roles", r#"[{"required":true}]"#)]))
        .unwrap_err();
    assert!(matches!(err.kind, ErrorKind::Deserialize));
}

#[test]
fn leftover_settings_are_tolerated_and_cleared() {
    let p = record(Some("user"), &[("users", r#"["u1","u2"]"#), ("extra", "1"), ("more", "2")]);
    let user = UserPolicyRepresentation::try_from(p).unwrap();
    assert_eq!(user.users, vec!["u1".to_string(), "u2".to_string()]);
    assert!(user.policy.config.is_empty());

    let mut q = record(Some("user"), &[("a", "1"), ("b", "2")]);
    assert_eq!(check_policy_config(&mut q), "a, b");
    assert!(q.config.is_empty());
    assert_eq!(check_policy_config(&mut q), "");
}

#[test]
fn config_fields_are_taken_out() {
    let mut p = record(Some("js"), &[("code", "x()"), ("other", "y")]);
    assert_eq!(get_policy_config_field(&mut p, "code").unwrap(), "x()");
    assert_eq!(p.config, vec![("other".to_string(), "y".to_string())]);
    let err = get_policy_config_field(&mut p, "code").unwrap_err();
    assert!(matches!(err.kind, ErrorKind::MissingField(ref f) if f == "config.code"));
    assert!(check_policy_type(&p, "js").is_ok());
    assert!(check_policy_type(&p, "regex").is_err());
}

#[test]
fn every_policy_kind_refines() {
    let agg = AggregatePolicyRepresentation::try_from(record(Some("aggregate"), &[("x", "y")])).unwrap();
    assert!(agg.policy.config.is_empty());

    let client = ClientPolicyRepresentation::try_from(record(Some("client"), &[("clients", r#"["c1"]"#)]))
        .unwrap();
    assert_eq!(client.clients, vec!["c1".to_string()]);

    let scopes = ClientScopePolicyRepresentation::try_from(record(
        Some("client-scope"),
        &[("clientScopes", r#"[{"id":"s1"},{"id":"s2","required":true}]"#)],
    ))
    .unwrap();
    assert_eq!(scopes.client_scopes.len(), 2);
    assert!(!scopes.client_scopes[0].required);
    assert!(scopes.client_scopes[1].required);

    let group = GroupPolicyRepresentation::try_from(record(
        Some("group"),
        &[("groups", r#"[{"id":"g1","required":false}]"#), ("groupsClaim", "groups")],
    ))
    .unwrap();
    assert_eq!(group.groups[0].id, "g1");
    assert_eq!(group.groups_claim, "groups");

    let js = JsPolicyRepresentation::try_from(record(Some("js"), &[("code", "grant()")])).unwrap();
    assert_eq!(js.code, "grant()");

    let regex = RegexPolicyRepresentation::try_from(record(
        Some("regex"),
        &[("targetClaim", "email"), ("pattern", ".*@x"), ("targetContextAttributes", "false")],
    ))
    .unwrap();
    assert_eq!(regex.target_claim, "email");
    assert_eq!(regex.pattern, ".*@x");
    assert!(!regex.target_context_attributes);

    let err = RegexPolicyRepresentation::try_from(record(Some("regex"), &[("targetClaim", "email")]))
        .unwrap_err();
    assert!(matches!(err.kind, ErrorKind::MissingField(ref f) if f == "config.pattern"));
}

#[test]
fn setting_decoders() {
    assert_eq!(decode_string_list(r#"["a", "b"]"#).unwrap(), vec!["a".to_string(), "b".to_string()]);
    assert!(decode_string_list(r#"["a", 1]"#).is_err());
    assert!(decode_string_list(r#"{"a":1}"#).is_err());
    assert!(decode_bool("true").unwrap());
    assert!(!decode_bool(" false ").unwrap());
    assert!(decode_bool("1").is_err());
    assert_eq!(decode_definition(r#"{"id":"r","required":true}"#).unwrap(), ("r".to_string(), true));
    assert_eq!(decode_definition(r#"{"id":"r"}"#).unwrap(), ("r".to_string(), false));
    assert!(decode_definition(r#"{"id":"r","required":"yes"}"#).is_err());
}

#[test]
fn record_json_lists_present_fields() {
    let mut p = record(Some("role"), &[]);
    p.id = Some("p1".to_string());
    p.policies = Some(vec!["a".to_string(), "b".to_string()]);
    p.decision_strategy = Some("UNANIMOUS".to_string());
    assert_eq!(
        p.to_json(),
        r#"{"id":"p1","type":"role","policies":["a","b"],"decisionStrategy":"UNANIMOUS"}"#
    );
}

#[test]
fn leftover_settings_are_reported() {
    let p = record(Some("role"), &[("extra", "1"), ("roles", "[]"), ("zeta", "2")]);
    let (role, leftover) = RolePolicyRepresentation::try_from_reporting(p).unwrap();
    assert!(role.roles.is_empty());
    assert!(role.policy.config.is_empty());
    assert_eq!(leftover, "extra, zeta");
    let p = record(
        Some("regex"),
        &[("targetClaim", "c"), ("pattern", "p"), ("targetContextAttributes", "true")],
    );
    let (regex, leftover) = RegexPolicyRepresentation::try_from_reporting(p).unwrap();
    assert!(regex.target_context_attributes);
    assert_eq!(leftover, "");
}

#[test]
fn shared_definition_decoder() {
    let pairs = keycloak_api::policies::decode_definitions(r#"[{"id":"a"},{"id":"b","required":true}]"#)
        .unwrap();
    assert_eq!(pairs, vec![("a".to_string(), false), ("b".to_string(), true)]);
    assert!(keycloak_api::policies::decode_definitions(r#"[{"id":"a"},3]"#).is_err());
}
