use keycloak_api::auth::{AccessTokenAuth, AuthenticationProvider, DirectGrantAuth};
use keycloak_api::error::{InnerError, KeycloakError};
use keycloak_api::rest::TokenResponse;
use keycloak_api::session::{
    authorization_header, expired_error, login_outcome, refresh_decision, refresh_outcome,
    RefreshDecision, RefreshGate,
};
use keycloak_api::ErrorKind;

fn response(expires_in: u32) -> TokenResponse {
    TokenResponse {
        access_token: "fresh".to_string(),
        expires_in,
        refresh_token: "rt".to_string(),
        refresh_expires_in: 3600,
        session_state: "s".to_string(),
    }
}

fn logged_in(now: u64) -> DirectGrantAuth {
    let mut auth = DirectGrantAuth::new("c", None, "u", "p");
    auth.store_tokens(&response(60), now);
    auth
}

#[test]
fn login_without_token_fails_with_missing_access_token() {
    let auth = DirectGrantAuth::new("c", None, "u", "p");
    let r = login_outcome(&auth, Ok(()), 0);
    let err = r.unwrap_err();
    assert!(matches!(err.kind, ErrorKind::MissingAccessToken));
    assert!(err.source.is_none());
}

#[test]
fn login_with_token_yields_bearer_header() {
    let auth = logged_in(0);
    assert_eq!(login_outcome(&auth, Ok(()), 0).unwrap(), "Bearer fresh");
    let fixed = AccessTokenAuth::new("abc".to_string());
    assert_eq!(login_outcome(&fixed, Ok(()), 99).unwrap(), "Bearer abc");
}

#[test]
fn login_with_expired_token_fails() {
    let auth = logged_in(0);
    let err = login_outcome(&auth, Ok(()), 60_001).unwrap_err();
    assert!(matches!(err.kind, ErrorKind::MissingAccessToken));
}

#[test]
fn login_errors_become_authentication_errors() {
    let auth = DirectGrantAuth::new("c", None, "u", "p");
    let err = login_outcome(&auth, Err(KeycloakError::new_kind(ErrorKind::Deserialize)), 0)
        .unwrap_err();
    assert!(matches!(err.kind, ErrorKind::Authentication));
    match err.source {
        Some(InnerError::Keycloak(inner)) => assert!(matches!(inner.kind, ErrorKind::Deserialize)),
        _ => panic!("the login error is kept as the cause"),
    }
    let err = login_outcome(&auth, Err(KeycloakError::new_kind(ErrorKind::Authentication)), 0)
        .unwrap_err();
    assert!(matches!(err.kind, ErrorKind::Authentication));
    assert!(err.source.is_none());
}

#[test]
fn decisions_follow_token_state() {
    let auth = logged_in(0);
    assert_eq!(refresh_decision(&auth, 0), RefreshDecision::Proceed);
    assert_eq!(refresh_decision(&auth, 50_001), RefreshDecision::Refresh);
    assert_eq!(refresh_decision(&auth, 3_600_001), RefreshDecision::Expired);
    let fresh = DirectGrantAuth::new("c", None, "u", "p");
    assert_eq!(refresh_decision(&fresh, 0), RefreshDecision::Expired);
    let fixed = AccessTokenAuth::new("t".to_string());
    assert_eq!(refresh_decision(&fixed, u64::MAX), RefreshDecision::Proceed);
    assert!(matches!(expired_error().kind, ErrorKind::TokenExpired));
}

#[test]
fn due_token_that_cannot_be_renewed_is_still_used() {
    let mut auth = DirectGrantAuth::new("c", None, "u", "p");
    auth.store_tokens(
        &TokenResponse {
            access_token: "a".to_string(),
            expires_in: 60,
            refresh_token: "r".to_string(),
            refresh_expires_in: 0,
            session_state: String::new(),
        },
        0,
    );
    assert_eq!(refresh_decision(&auth, 55_000), RefreshDecision::Proceed);
    assert_eq!(refresh_decision(&auth, 60_001), RefreshDecision::Expired);
}

#[test]
fn queued_requests_renew_once() {
    // five requests find the token due under shared access at t = 55 s
    let mut auth = logged_in(0);
    let arrivals = [55_000u64, 55_001, 55_010, 55_500, 56_000];
    for t in arrivals {
        assert_eq!(refresh_decision(&auth, t), RefreshDecision::Refresh);
    }
    // they then pass the exclusive section one by one and decide again
    let mut renewals = 0;
    for t in arrivals {
        if refresh_decision(&auth, t) == RefreshDecision::Refresh {
            auth.store_tokens(&response(60), t);
            renewals += 1;
        }
        assert!(auth.token_is_valid(t));
        assert!(!auth.needs_refresh(t));
    }
    assert_eq!(renewals, 1);
}

#[test]
fn refresh_outcome_cases() {
    let auth = logged_in(0);
    assert_eq!(refresh_outcome(&auth, Ok(())).unwrap(), "Bearer fresh");
    let err = refresh_outcome(&auth, Err(KeycloakError::new_kind(ErrorKind::Reqwest))).unwrap_err();
    assert!(matches!(err.kind, ErrorKind::Reqwest));
    let empty = DirectGrantAuth::new("c", None, "u", "p");
    let err = refresh_outcome(&empty, Ok(())).unwrap_err();
    assert!(matches!(err.kind, ErrorKind::MissingAccessToken));
    assert_eq!(authorization_header("xyz"), "Bearer xyz");
}

#[test]
fn failed_renewal_stops_further_renewals() {
    let auth = logged_in(0);
    let mut gate = RefreshGate::new();
    assert_eq!(gate.decide(&auth, 55_000), RefreshDecision::Refresh);
    gate.record(&Ok("Bearer fresh".to_string()));
    assert!(!gate.failed);
    gate.record(&Err(KeycloakError::new_kind(ErrorKind::Reqwest)));
    assert!(gate.failed);
    // still valid: used without renewal; no longer valid: the session is dead
    assert_eq!(gate.decide(&auth, 55_000), RefreshDecision::Proceed);
    assert_eq!(gate.decide(&auth, 60_001), RefreshDecision::Expired);
    assert_eq!(gate.decide(&auth, 1_000), RefreshDecision::Proceed);
}
