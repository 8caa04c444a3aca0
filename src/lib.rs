//! A client library for the administration API of a Keycloak identity
//! server: credential providers and the decisions that keep a session's
//! bearer token fresh, paged fetching, error mapping, and the refinement of
//! generic authorization-policy records into typed policies.
use vstd::prelude::*;

pub mod auth;
pub mod error;
pub mod json;
pub mod lookup;
pub mod paginate;
pub mod policies;
pub mod rest;
pub mod session;

pub use error::{ErrorKind, KeycloakError};

verus! {

/// Where the server is and which realm the session works in.
#[derive(Debug, Clone)]
pub struct KeycloakConfig {
    pub base_url: String,
    pub realm: String,
}

pub open spec fn token_endpoint_spec(base_url: Seq<char>, realm: Seq<char>) -> Seq<char> {
    base_url + "/realms/"@ + realm + "/protocol/openid-connect/token"@
}

pub open spec fn server_info_endpoint_spec(base_url: Seq<char>) -> Seq<char> {
    base_url + "/admin/serverinfo"@
}

impl KeycloakConfig {
    pub fn new(base_url: &str, realm: &str) -> (r: Self)
        ensures
            r.base_url@ == base_url@,
            r.realm@ == realm@,
    {
        KeycloakConfig { base_url: String::from_str(base_url), realm: String::from_str(realm) }
    }

    /// The URL of the realm's token endpoint.
    pub fn token_endpoint(&self) -> (r: String)
        ensures
            r@ == token_endpoint_spec(self.base_url@, self.realm@),
    {
        let mut url = self.base_url.clone();
        url.append("/realms/");
        url.append(self.realm.as_str());
        url.append("/protocol/openid-connect/token");
        url
    }

    /// The URL of the server-info endpoint.
    pub fn server_info_endpoint(&self) -> (r: String)
        ensures
            r@ == server_info_endpoint_spec(self.base_url@),
    {
        let mut url = self.base_url.clone();
        url.append("/admin/serverinfo");
        url
    }
}

} // verus!
