use keycloak_api::error::{
    api_failure, from_response, InnerError, KeycloakError, KeycloakErrorBody, ResourceType,
};
use keycloak_api::ErrorKind;

#[test]
fn response_with_error_body_keeps_it_as_cause() {
    let body = br#"{"error":"invalid_grant","error_description":"Bad credentials"}"#.to_vec();
    let err = from_response(401, body.clone());
    match &err.kind {
        ErrorKind::ResponseError { status, response } => {
            assert_eq!(*status, 401);
            assert_eq!(response.as_ref(), Some(&body));
        }
        _ => panic!("expected a response error"),
    }
    match &err.source {
        Some(InnerError::Keycloak(inner)) => match &inner.kind {
            ErrorKind::KeycloakError(b) => {
                assert_eq!(b.error, "invalid_grant");
                assert_eq!(b.error_description.as_deref(), Some("Bad credentials"));
                assert_eq!(b.message(), "invalid_grant: Bad credentials");
            }
            _ => panic!("expected the server's error"),
        },
        _ => panic!("expected a cause"),
    }
    assert_eq!(err.status(), Some(401));
}

#[test]
fn response_without_error_body_has_no_cause() {
    let err = from_response(502, b"<html>bad gateway</html>".to_vec());
    assert!(err.source.is_none());
    assert_eq!(err.status(), Some(502));
}

#[test]
fn error_body_variants() {
    let b = KeycloakErrorBody::from_bytes(br#"{"error":"e","error_description":null}"#).unwrap();
    assert_eq!(b.error, "e");
    assert!(b.error_description.is_none());
    assert_eq!(b.message(), "e");
    let b = KeycloakErrorBody::from_bytes(br#"{"error":"e2","extra":1}"#).unwrap();
    assert_eq!(b.error, "e2");
    assert!(KeycloakErrorBody::from_bytes(br#"{"error_description":"x"}"#).is_none());
    assert!(KeycloakErrorBody::from_bytes(br#"{"error":5}"#).is_none());
    assert!(KeycloakErrorBody::from_bytes(&[0xff, 0xfe]).is_none());
    assert!(KeycloakErrorBody::from_bytes(b"[1,2]").is_none());
}

#[test]
fn api_failures() {
    let err = api_failure(None, None);
    assert!(matches!(err.kind, ErrorKind::ApiError));
    assert!(err.source.is_none());
    assert_eq!(err.status(), None);

    let err = api_failure(Some(404), None);
    assert!(matches!(err.kind, ErrorKind::ApiError));
    assert_eq!(err.status(), Some(404));
    match &err.source {
        Some(InnerError::Keycloak(inner)) => {
            assert!(matches!(inner.kind, ErrorKind::ResponseError { status: 404, response: None }))
        }
        _ => panic!("expected a cause"),
    }

    let err = api_failure(Some(400), Some(br#"{"error":"bad"}"#.to_vec()));
    assert_eq!(err.status(), Some(400));
    match &err.source {
        Some(InnerError::Keycloak(inner)) => assert!(inner.source.is_some()),
        _ => panic!("expected a cause"),
    }
}

#[test]
fn status_of_errors_without_response() {
    assert_eq!(KeycloakError::new_kind(ErrorKind::Other).status(), None);
    let err = KeycloakError::caused_by(ErrorKind::Authentication, from_response(403, Vec::new()));
    assert_eq!(err.status(), Some(403));
    assert!(matches!(err.kind(), ErrorKind::Authentication));
}

#[test]
fn resource_names() {
    assert_eq!(ResourceType::Client.name(), "client");
    assert_eq!(ResourceType::Group.name(), "group");
    assert_eq!(ResourceType::User.name(), "user");
}

#[test]
fn decode_errors_keep_serde_cause() {
    let err = keycloak_api::policies::decode_bool("maybe").unwrap_err();
    assert!(matches!(err.kind, ErrorKind::Deserialize));
    assert!(matches!(err.source, Some(InnerError::Serde(_))));
}

#[test]
fn transport_failure_keeps_its_status() {
    let err = keycloak_api::error::transport_failure(Some(503), "unavailable".to_string());
    assert!(matches!(err.kind, ErrorKind::Reqwest));
    assert_eq!(err.status(), Some(503));
    let err = keycloak_api::error::transport_failure(None, "refused".to_string());
    assert_eq!(err.status(), None);
}
