//! Payloads of the token endpoint and the server-info endpoint.
use vstd::prelude::*;

use crate::json::{member_texts, object_text, quote, write_object};

verus! {

/// The form sent to the token endpoint.
#[derive(Debug)]
pub struct TokenRequest<'a> {
    pub client_id: &'a str,
    pub client_secret: Option<&'a str>,
    pub grant: TokenRequestGrant<'a>,
}

/// The grant of a token request, told apart by its `grant_type` field.
#[derive(Debug)]
pub enum TokenRequestGrant<'a> {
    Password { username: &'a str, password: &'a str },
    RefreshToken { refresh_token: &'a str },
}

pub open spec fn opt_str_view(o: Option<&str>) -> Option<Seq<char>> {
    match o {
        None => None,
        Some(s) => Some(s@),
    }
}

pub open spec fn client_fields(client_id: Seq<char>, client_secret: Option<Seq<char>>) -> Seq<
    (Seq<char>, Seq<char>),
> {
    seq![("client_id"@, client_id)] + match client_secret {
        None => Seq::empty(),
        Some(s) => seq![("client_secret"@, s)],
    }
}

/// The form fields of a password grant, in order.
pub open spec fn password_fields(
    client_id: Seq<char>,
    client_secret: Option<Seq<char>>,
    username: Seq<char>,
    password: Seq<char>,
) -> Seq<(Seq<char>, Seq<char>)> {
    client_fields(client_id, client_secret) + seq![
        ("grant_type"@, "password"@),
        ("username"@, username),
        ("password"@, password),
    ]
}

/// The form fields of a refresh-token grant, in order.
pub open spec fn refresh_fields(
    client_id: Seq<char>,
    client_secret: Option<Seq<char>>,
    refresh_token: Seq<char>,
) -> Seq<(Seq<char>, Seq<char>)> {
    client_fields(client_id, client_secret) + seq![
        ("grant_type"@, "refresh_token"@),
        ("refresh_token"@, refresh_token),
    ]
}

impl<'a> TokenRequest<'a> {
    /// The fields of the form, in order: `client_id`, `client_secret` when
    /// present, `grant_type`, then the grant's own fields.
    pub open spec fn spec_fields(&self) -> Seq<(Seq<char>, Seq<char>)> {
        match self.grant {
            TokenRequestGrant::Password { username, password } => password_fields(
                self.client_id@,
                opt_str_view(self.client_secret),
                username@,
                password@,
            ),
            TokenRequestGrant::RefreshToken { refresh_token } => refresh_fields(
                self.client_id@,
                opt_str_view(self.client_secret),
                refresh_token@,
            ),
        }
    }

    /// A request for the password grant.
    pub fn new_password(
        client_id: &'a str,
        client_secret: Option<&'a str>,
        username: &'a str,
        password: &'a str,
    ) -> (r: Self)
        ensures
            r.client_id == client_id,
            r.client_secret == client_secret,
            r.grant == (TokenRequestGrant::Password { username, password }),
    {
        TokenRequest { client_id, client_secret, grant: TokenRequestGrant::Password { username, password } }
    }

    /// A request for the refresh-token grant.
    pub fn new_refresh(client_id: &'a str, client_secret: Option<&'a str>, refresh_token: &'a str) -> (r: Self)
        ensures
            r.client_id == client_id,
            r.client_secret == client_secret,
            r.grant == (TokenRequestGrant::RefreshToken { refresh_token }),
    {
        TokenRequest { client_id, client_secret, grant: TokenRequestGrant::RefreshToken { refresh_token } }
    }

    /// The (name, value) fields of the form, in order.
    pub fn form_fields(&self) -> (r: Vec<(String, String)>)
        ensures
            member_texts(r@) == self.spec_fields(),
    {
        let mut fields: Vec<(String, String)> = Vec::new();
        fields.push((String::from_str("client_id"), String::from_str(self.client_id)));
        if let Some(secret) = self.client_secret {
            fields.push((String::from_str("client_secret"), String::from_str(secret)));
        }
        match &self.grant {
            TokenRequestGrant::Password { username, password } => {
                fields.push((String::from_str("grant_type"), String::from_str("password")));
                fields.push((String::from_str("username"), String::from_str(username)));
                fields.push((String::from_str("password"), String::from_str(password)));
            },
            TokenRequestGrant::RefreshToken { refresh_token } => {
                fields.push((String::from_str("grant_type"), String::from_str("refresh_token")));
                fields.push((String::from_str("refresh_token"), String::from_str(refresh_token)));
            },
        }
        assert(member_texts(fields@) =~= self.spec_fields());
        fields
    }

    /// The request as a JSON object, with the fields of the form as string members.
    pub fn to_json(&self) -> (r: String)
        ensures
            r@ == object_text(
                self.spec_fields().map_values(
                    |f: (Seq<char>, Seq<char>)| (f.0, crate::json::json_quoted(f.1)),
                ),
            ),
    {
        let fields = self.form_fields();
        let mut members: Vec<(String, String)> = Vec::new();
        let mut i: usize = 0;
        while i < fields.len()
            invariant
                i <= fields.len(),
                members@.len() == i,
                member_texts(fields@) == self.spec_fields(),
                forall|j: int|
                    0 <= j < i ==> #[trigger] members@[j].0@ == fields@[j].0@ && members@[j].1@
                        == crate::json::json_quoted(fields@[j].1@),
            decreases fields.len() - i,
        {
            members.push((fields[i].0.clone(), quote(fields[i].1.as_str())));
            i = i + 1;
        }
        assert(member_texts(members@) =~= self.spec_fields().map_values(
            |f: (Seq<char>, Seq<char>)| (f.0, crate::json::json_quoted(f.1)),
        ));
        write_object(&members)
    }
}

/// The answer of the token endpoint; lifetimes are in seconds.
#[derive(Debug, Clone)]
pub struct TokenResponse {
    pub access_token: String,
    pub expires_in: u32,
    pub refresh_token: String,
    pub refresh_expires_in: u32,
    pub session_state: String,
}

/// The answer of the server-info endpoint.
#[derive(Debug, Clone)]
pub struct ServerInfo {
    pub system_info: ServerInfoSystemInfo,
}

#[derive(Debug, Clone)]
pub struct ServerInfoSystemInfo {
    pub version: String,
    pub java_version: String,
    pub java_vendor: String,
    pub java_vm: String,
    pub java_vm_version: String,
    pub uptime: String,
    pub uptime_millis: u64,
    pub os_name: String,
    pub os_architecture: String,
    pub os_version: String,
    pub file_encoding: String,
}

} // verus!
