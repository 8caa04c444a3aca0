use keycloak_api::rest::{TokenRequest, TokenRequestGrant};
use keycloak_api::KeycloakConfig;

#[test]
fn test_token_request() {
    let request = TokenRequest::new_password("id", None, "user", "pass");
    let serialized = request.to_json();
    assert_eq!(
        serialized,
        r#"{"client_id":"id","grant_type":"password","username":"user","password":"pass"}"#
    );

    let request = TokenRequest::new_refresh("id", None, "token");
    let serialized = request.to_json();
    assert_eq!(
        serialized,
        r#"{"client_id":"id","grant_type":"refresh_token","refresh_token":"token"}"#
    );
}

#[test]
fn token_request_with_secret_lists_it_after_client_id() {
    let request = TokenRequest::new_refresh("cli", Some("s3"), "rt");
    let fields = request.form_fields();
    let expected: Vec<(String, String)> = vec![
        ("client_id".to_string(), "cli".to_string()),
        ("client_secret".to_string(), "s3".to_string()),
        ("grant_type".to_string(), "refresh_token".to_string()),
        ("refresh_token".to_string(), "rt".to_string()),
    ];
    assert_eq!(fields, expected);
    assert!(matches!(request.grant, TokenRequestGrant::RefreshToken { refresh_token: "rt" }));
}

#[test]
fn token_request_json_escapes_values() {
    let request = TokenRequest::new_password("a\"b", None, "u\\v", "p\nq");
    assert_eq!(
        request.to_json(),
        r#"{"client_id":"a\"b","grant_type":"password","username":"u\\v","password":"p\nq"}"#
    );
}

#[test]
fn config_endpoints() {
    let config = KeycloakConfig::new("http://localhost:8080", "master");
    assert_eq!(
        config.token_endpoint(),
        "http://localhost:8080/realms/master/protocol/openid-connect/token"
    );
    assert_eq!(config.server_info_endpoint(), "http://localhost:8080/admin/serverinfo");
}

#[test]
fn token_request_json_escapes_control_characters() {
    let request = TokenRequest::new_refresh("c", None, "a\u{1}b\tc");
    assert_eq!(
        request.to_json(),
        r#"{"client_id":"c","grant_type":"refresh_token","refresh_token":"a\u0001b\tc"}"#
    );
}
