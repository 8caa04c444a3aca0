use keycloak_api::error::ResourceType;
use keycloak_api::lookup::exactly_one;
use keycloak_api::ErrorKind;

#[test]
fn no_match_is_not_found() {
    let r = exactly_one(Vec::<String>::new(), ResourceType::User);
    assert!(matches!(r.unwrap_err().kind, ErrorKind::NotFound(ResourceType::User)));
}

#[test]
fn one_match_is_returned() {
    let r = exactly_one(vec!["alice".to_string()], ResourceType::User);
    assert_eq!(r.unwrap(), "alice");
}

#[test]
fn two_matches_are_not_unique() {
    let r = exactly_one(vec!["alice".to_string(), "alice2".to_string()], ResourceType::User);
    assert!(matches!(r.unwrap_err().kind, ErrorKind::NotUnique(ResourceType::User)));
}

#[test]
fn many_matches_of_clients_are_not_unique() {
    let r = exactly_one(vec![1u8, 2, 3], ResourceType::Client);
    assert!(matches!(r.unwrap_err().kind, ErrorKind::NotUnique(ResourceType::Client)));
}
