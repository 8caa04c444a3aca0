use keycloak_api::auth::{
    add_seconds, AccessTokenAuth, Auth, AuthenticationProvider, DirectGrantAuth, Tokens,
    REFRESH_MARGIN_MS,
};
use keycloak_api::rest::TokenResponse;
use keycloak_api::ErrorKind;

fn response(expires_in: u32, refresh_expires_in: u32) -> TokenResponse {
    TokenResponse {
        access_token: "at".to_string(),
        expires_in,
        refresh_token: "rt".to_string(),
        refresh_expires_in,
        session_state: "s".to_string(),
    }
}

#[test]
fn static_token_is_always_valid_and_never_refreshes() {
    let auth = AccessTokenAuth::new("tok".to_string());
    assert_eq!(auth.access_token(), Some("tok"));
    assert!(auth.token_is_valid(u64::MAX));
    assert!(!auth.needs_refresh(0));
    assert!(!auth.can_refresh(0));
    assert!(auth.login_request().is_none());
    let err = auth.refresh_request().unwrap_err();
    assert!(matches!(err.kind, ErrorKind::Authentication));
}

#[test]
fn direct_grant_before_login() {
    let auth = DirectGrantAuth::new("admin-cli", None, "admin", "secret");
    assert_eq!(auth.access_token(), None);
    assert!(!auth.token_is_valid(0));
    assert!(!auth.needs_refresh(0));
    assert!(!auth.can_refresh(0));
    let err = auth.refresh_request().unwrap_err();
    assert!(matches!(err.kind, ErrorKind::MissingAccessToken));
    let login = auth.login_request().unwrap();
    assert_eq!(
        login.to_json(),
        r#"{"client_id":"admin-cli","grant_type":"password","username":"admin","password":"secret"}"#
    );
}

#[test]
fn direct_grant_tracks_expiry() {
    let mut auth = DirectGrantAuth::new("admin-cli", Some("cs"), "admin", "secret");
    auth.store_tokens(&response(60, 1800), 1_000);
    assert_eq!(auth.access_token(), Some("at"));
    // the access token lasts until 61_000, the refresh token until 1_801_000
    assert!(auth.token_is_valid(61_000));
    assert!(!auth.token_is_valid(61_001));
    assert!(!auth.needs_refresh(51_000));
    assert!(auth.needs_refresh(51_001));
    assert!(auth.can_refresh(1_801_000));
    assert!(!auth.can_refresh(1_801_001));
    let refresh = auth.refresh_request().unwrap();
    assert_eq!(
        refresh.to_json(),
        r#"{"client_id":"admin-cli","client_secret":"cs","grant_type":"refresh_token","refresh_token":"rt"}"#
    );
}

#[test]
fn short_lived_token_is_due_at_once() {
    let mut auth = DirectGrantAuth::new("c", None, "u", "p");
    auth.store_tokens(&response(5, 5), 0);
    assert!(auth.token_is_valid(0));
    assert!(auth.needs_refresh(0));
}

#[test]
fn expiry_saturates_at_end_of_clock() {
    assert_eq!(add_seconds(10, 3), 3_010);
    assert_eq!(add_seconds(u64::MAX - 5, 1), u64::MAX);
    let tokens = Tokens::from_response(&response(2, 4), 100);
    assert_eq!(tokens.expiry, 2_100);
    assert_eq!(tokens.refresh_expiry, 4_100);
    assert_eq!(REFRESH_MARGIN_MS, 10_000);
}

#[test]
fn auth_dispatches_to_its_variant() {
    let mut auth = Auth::DirectGrant(DirectGrantAuth::new("c", None, "u", "p"));
    assert!(auth.login_request().is_some());
    auth.store_tokens(&response(100, 200), 0);
    assert_eq!(auth.access_token(), Some("at"));
    assert!(auth.can_refresh(200_000));
    let fixed = Auth::AccessToken(AccessTokenAuth::new("x".to_string()));
    assert!(fixed.login_request().is_none());
    assert!(fixed.token_is_valid(7));
    assert!(!fixed.can_refresh(7));
}
