//! Credential providers: how a session obtains, renews and judges its bearer token.
//!
//! Instants are milliseconds on a clock chosen by the caller; every method that
//! depends on the time takes the current instant as `now`. Exchanges with the
//! token endpoint are described, not performed: a provider hands out the form
//! to send and stores the answer it is given.
use vstd::prelude::*;

use crate::error::{ErrorKind, KeycloakError};
use crate::rest::{
    TokenRequest, TokenResponse, opt_str_view, password_fields, refresh_fields,
};

verus! {

/// How long before its expiry an access token is renewed, in milliseconds.
pub const REFRESH_MARGIN_MS: u64 = 10_000;

/// The instant `secs` seconds after `now` (saturating at the end of the clock).
pub open spec fn instant_after(now: u64, secs: u32) -> u64 {
    if now as int + secs as int * 1000 > u64::MAX as int {
        u64::MAX
    } else {
        (now as int + secs as int * 1000) as u64
    }
}

/// Computes `instant_after(now, secs)`.
pub fn add_seconds(now: u64, secs: u32) -> (r: u64)
    ensures
        r == instant_after(now, secs),
{
    let span: u64 = secs as u64 * 1000;
    if now > u64::MAX - span {
        u64::MAX
    } else {
        now + span
    }
}

pub open spec fn opt_string_view(o: Option<String>) -> Option<Seq<char>> {
    match o {
        None => None,
        Some(s) => Some(s@),
    }
}

/// Behaviour shared by every credential provider.
pub trait AuthenticationProvider: Sized {
    /// The access token held, if any.
    spec fn spec_access_token(&self) -> Option<Seq<char>>;

    /// Whether a token is held and has not expired at `now`.
    spec fn spec_token_is_valid(&self, now: u64) -> bool;

    /// Whether the token is due for renewal at `now`.
    spec fn spec_needs_refresh(&self, now: u64) -> bool;

    /// Whether the provider can renew its token at `now`.
    spec fn spec_can_refresh(&self, now: u64) -> bool;

    /// The form of the initial exchange; `None` when login needs no exchange.
    spec fn spec_login_form(&self) -> Option<Seq<(Seq<char>, Seq<char>)>>;

    /// The form of a renewal exchange, or the kind of error that forbids one.
    spec fn spec_refresh_form(&self) -> Result<Seq<(Seq<char>, Seq<char>)>, ErrorKind>;

    /// The provider after it stored the answer `response` received at `now`.
    spec fn spec_stored(&self, response: TokenResponse, now: u64) -> Self;

    /// A provider whose token is valid holds a token.
    proof fn lemma_valid_token_is_held(&self, now: u64)
        requires
            self.spec_token_is_valid(now),
        ensures
            self.spec_access_token() is Some,
    ;

    /// The exchange to perform for the initial login, if any.
    fn login_request(&self) -> (r: Option<TokenRequest<'_>>)
        ensures
            match r {
                None => self.spec_login_form() is None,
                Some(q) => self.spec_login_form() == Some(q.spec_fields()),
            },
    ;

    /// The exchange to perform to renew the token, or why none is possible.
    fn refresh_request(&self) -> (r: Result<TokenRequest<'_>, KeycloakError>)
        ensures
            match r {
                Ok(q) => self.spec_refresh_form() == Ok::<_, ErrorKind>(q.spec_fields()),
                Err(e) => self.spec_refresh_form() == Err::<Seq<(Seq<char>, Seq<char>)>, _>(e.kind)
                    && e.source is None,
            },
    ;

    /// Stores the answer of the token endpoint, received at `now`.
    fn store_tokens(&mut self, response: &TokenResponse, now: u64)
        ensures
            *final(self) == old(self).spec_stored(*response, now),
    ;

    /// The access token held, if any.
    fn access_token(&self) -> (r: Option<&str>)
        ensures
            opt_str_view(r) == self.spec_access_token(),
    ;

    /// Whether a token is held and has not expired at `now`.
    fn token_is_valid(&self, now: u64) -> (r: bool)
        ensures
            r == self.spec_token_is_valid(now),
    ;

    /// Whether the token is due for renewal at `now`.
    fn needs_refresh(&self, now: u64) -> (r: bool)
        ensures
            r == self.spec_needs_refresh(now),
    ;

    /// Whether the provider can renew its token at `now`; when it cannot,
    /// no renewal is ever attempted.
    fn can_refresh(&self, now: u64) -> (r: bool)
        ensures
            r == self.spec_can_refresh(now),
    ;
}

/// A provider holding a long-lived token supplied from outside. Its expiry is
/// not tracked: the token always counts as valid, and it cannot be renewed.
#[derive(Debug, Clone)]
pub struct AccessTokenAuth {
    pub access_token: String,
}

impl AccessTokenAuth {
    pub fn new(access_token: String) -> (r: Self)
        ensures
            r.access_token == access_token,
    {
        AccessTokenAuth { access_token }
    }
}

impl AuthenticationProvider for AccessTokenAuth {
    open spec fn spec_access_token(&self) -> Option<Seq<char>> {
        Some(self.access_token@)
    }

    open spec fn spec_token_is_valid(&self, now: u64) -> bool {
        true
    }

    open spec fn spec_needs_refresh(&self, now: u64) -> bool {
        !self.spec_token_is_valid(now)
    }

    open spec fn spec_can_refresh(&self, now: u64) -> bool {
        false
    }

    open spec fn spec_login_form(&self) -> Option<Seq<(Seq<char>, Seq<char>)>> {
        None
    }

    open spec fn spec_refresh_form(&self) -> Result<Seq<(Seq<char>, Seq<char>)>, ErrorKind> {
        Err(ErrorKind::Authentication)
    }

    open spec fn spec_stored(&self, response: TokenResponse, now: u64) -> Self {
        *self
    }

    proof fn lemma_valid_token_is_held(&self, now: u64) {
    }

    fn login_request(&self) -> (r: Option<TokenRequest<'_>>) {
        None
    }

    fn refresh_request(&self) -> (r: Result<TokenRequest<'_>, KeycloakError>) {
        Err(KeycloakError::new_kind(ErrorKind::Authentication))
    }

    fn store_tokens(&mut self, response: &TokenResponse, now: u64) {
    }

    fn access_token(&self) -> (r: Option<&str>) {
        Some(self.access_token.as_str())
    }

    fn token_is_valid(&self, now: u64) -> (r: bool) {
        true
    }

    fn needs_refresh(&self, now: u64) -> (r: bool) {
        !self.token_is_valid(now)
    }

    fn can_refresh(&self, now: u64) -> (r: bool) {
        false
    }
}

/// The tokens obtained by one exchange with the token endpoint.
#[derive(Debug, Clone)]
pub struct Tokens {
    pub access_token: String,
    pub expiry: u64,
    pub refresh_token: String,
    pub refresh_expiry: u64,
}

impl Tokens {
    /// The tokens of `response`, received at `now`; each expires the number
    /// of seconds that the server gave after `now`.
    pub fn from_response(response: &TokenResponse, now: u64) -> (r: Tokens)
        ensures
            r == tokens_of(*response, now),
    {
        Tokens {
            access_token: response.access_token.clone(),
            expiry: add_seconds(now, response.expires_in),
            refresh_token: response.refresh_token.clone(),
            refresh_expiry: add_seconds(now, response.refresh_expires_in),
        }
    }
}

pub open spec fn tokens_of(response: TokenResponse, now: u64) -> Tokens {
    Tokens {
        access_token: response.access_token,
        expiry: instant_after(now, response.expires_in),
        refresh_token: response.refresh_token,
        refresh_expiry: instant_after(now, response.refresh_expires_in),
    }
}

/// A provider that logs in with a username and password (the password grant)
/// and renews its tokens with the refresh-token grant.
#[derive(Debug, Clone)]
pub struct DirectGrantAuth {
    pub client_id: String,
    pub client_secret: Option<String>,
    pub username: String,
    pub password: String,
    pub tokens: Option<Tokens>,
}

impl DirectGrantAuth {
    /// A provider that has not logged in yet.
    pub fn new(client_id: &str, client_secret: Option<&str>, username: &str, password: &str) -> (r: Self)
        ensures
            r.client_id@ == client_id@,
            opt_string_view(r.client_secret) == opt_str_view(client_secret),
            r.username@ == username@,
            r.password@ == password@,
            r.tokens is None,
    {
        DirectGrantAuth {
            client_id: String::from_str(client_id),
            client_secret: match client_secret {
                None => None,
                Some(s) => Some(String::from_str(s)),
            },
            username: String::from_str(username),
            password: String::from_str(password),
            tokens: None,
        }
    }

    fn secret(&self) -> (r: Option<&str>)
        ensures
            opt_str_view(r) == opt_string_view(self.client_secret),
    {
        match &self.client_secret {
            None => None,
            Some(s) => Some(s.as_str()),
        }
    }
}

impl AuthenticationProvider for DirectGrantAuth {
    open spec fn spec_access_token(&self) -> Option<Seq<char>> {
        match self.tokens {
            None => None,
            Some(t) => Some(t.access_token@),
        }
    }

    open spec fn spec_token_is_valid(&self, now: u64) -> bool {
        match self.tokens {
            None => false,
            Some(t) => t.expiry >= now,
        }
    }

    open spec fn spec_needs_refresh(&self, now: u64) -> bool {
        match self.tokens {
            None => false,
            Some(t) => t.expiry - REFRESH_MARGIN_MS < now,
        }
    }

    open spec fn spec_can_refresh(&self, now: u64) -> bool {
        match self.tokens {
            None => false,
            Some(t) => t.refresh_expiry >= now,
        }
    }

    open spec fn spec_login_form(&self) -> Option<Seq<(Seq<char>, Seq<char>)>> {
        Some(
            password_fields(
                self.client_id@,
                opt_string_view(self.client_secret),
                self.username@,
                self.password@,
            ),
        )
    }

    open spec fn spec_refresh_form(&self) -> Result<Seq<(Seq<char>, Seq<char>)>, ErrorKind> {
        match self.tokens {
            None => Err(ErrorKind::MissingAccessToken),
            Some(t) => Ok(
                refresh_fields(self.client_id@, opt_string_view(self.client_secret), t.refresh_token@),
            ),
        }
    }

    open spec fn spec_stored(&self, response: TokenResponse, now: u64) -> Self {
        DirectGrantAuth { tokens: Some(tokens_of(response, now)), ..*self }
    }

    proof fn lemma_valid_token_is_held(&self, now: u64) {
    }

    fn login_request(&self) -> (r: Option<TokenRequest<'_>>) {
        Some(
            TokenRequest::new_password(
                self.client_id.as_str(),
                self.secret(),
                self.username.as_str(),
                self.password.as_str(),
            ),
        )
    }

    fn refresh_request(&self) -> (r: Result<TokenRequest<'_>, KeycloakError>) {
        match &self.tokens {
            None => Err(KeycloakError::new_kind(ErrorKind::MissingAccessToken)),
            Some(tokens) => Ok(
                TokenRequest::new_refresh(
                    self.client_id.as_str(),
                    self.secret(),
                    tokens.refresh_token.as_str(),
                ),
            ),
        }
    }

    fn store_tokens(&mut self, response: &TokenResponse, now: u64) {
        self.tokens = Some(Tokens::from_response(response, now));
    }

    fn access_token(&self) -> (r: Option<&str>) {
        match &self.tokens {
            None => None,
            Some(t) => Some(t.access_token.as_str()),
        }
    }

    fn token_is_valid(&self, now: u64) -> (r: bool) {
        match &self.tokens {
            None => false,
            Some(t) => t.expiry >= now,
        }
    }

    fn needs_refresh(&self, now: u64) -> (r: bool) {
        match &self.tokens {
            None => false,
            Some(t) => t.expiry < REFRESH_MARGIN_MS || t.expiry - REFRESH_MARGIN_MS < now,
        }
    }

    fn can_refresh(&self, now: u64) -> (r: bool) {
        match &self.tokens {
            None => false,
            Some(t) => t.refresh_expiry >= now,
        }
    }
}

/// Any one of the providers of this library.
#[derive(Debug, Clone)]
pub enum Auth {
    AccessToken(AccessTokenAuth),
    DirectGrant(DirectGrantAuth),
}

impl AuthenticationProvider for Auth {
    open spec fn spec_access_token(&self) -> Option<Seq<char>> {
        match self {
            Auth::AccessToken(a) => a.spec_access_token(),
            Auth::DirectGrant(a) => a.spec_access_token(),
        }
    }

    open spec fn spec_token_is_valid(&self, now: u64) -> bool {
        match self {
            Auth::AccessToken(a) => a.spec_token_is_valid(now),
            Auth::DirectGrant(a) => a.spec_token_is_valid(now),
        }
    }

    open spec fn spec_needs_refresh(&self, now: u64) -> bool {
        match self {
            Auth::AccessToken(a) => a.spec_needs_refresh(now),
            Auth::DirectGrant(a) => a.spec_needs_refresh(now),
        }
    }

    open spec fn spec_can_refresh(&self, now: u64) -> bool {
        match self {
            Auth::AccessToken(a) => a.spec_can_refresh(now),
            Auth::DirectGrant(a) => a.spec_can_refresh(now),
        }
    }

    open spec fn spec_login_form(&self) -> Option<Seq<(Seq<char>, Seq<char>)>> {
        match self {
            Auth::AccessToken(a) => a.spec_login_form(),
            Auth::DirectGrant(a) => a.spec_login_form(),
        }
    }

    open spec fn spec_refresh_form(&self) -> Result<Seq<(Seq<char>, Seq<char>)>, ErrorKind> {
        match self {
            Auth::AccessToken(a) => a.spec_refresh_form(),
            Auth::DirectGrant(a) => a.spec_refresh_form(),
        }
    }

    open spec fn spec_stored(&self, response: TokenResponse, now: u64) -> Self {
        match self {
            Auth::AccessToken(a) => Auth::AccessToken(a.spec_stored(response, now)),
            Auth::DirectGrant(a) => Auth::DirectGrant(a.spec_stored(response, now)),
        }
    }

    proof fn lemma_valid_token_is_held(&self, now: u64) {
    }

    fn login_request(&self) -> (r: Option<TokenRequest<'_>>) {
        match self {
            Auth::AccessToken(a) => a.login_request(),
            Auth::DirectGrant(a) => a.login_request(),
        }
    }

    fn refresh_request(&self) -> (r: Result<TokenRequest<'_>, KeycloakError>) {
        match self {
            Auth::AccessToken(a) => a.refresh_request(),
            Auth::DirectGrant(a) => a.refresh_request(),
        }
    }

    fn store_tokens(&mut self, response: &TokenResponse, now: u64) {
        match self {
            Auth::AccessToken(a) => a.store_tokens(response, now),
            Auth::DirectGrant(a) => a.store_tokens(response, now),
        }
    }

    fn access_token(&self) -> (r: Option<&str>) {
        match self {
            Auth::AccessToken(a) => a.access_token(),
            Auth::DirectGrant(a) => a.access_token(),
        }
    }

    fn token_is_valid(&self, now: u64) -> (r: bool) {
        match self {
            Auth::AccessToken(a) => a.token_is_valid(now),
            Auth::DirectGrant(a) => a.token_is_valid(now),
        }
    }

    fn needs_refresh(&self, now: u64) -> (r: bool) {
        match self {
            Auth::AccessToken(a) => a.needs_refresh(now),
            Auth::DirectGrant(a) => a.needs_refresh(now),
        }
    }

    fn can_refresh(&self, now: u64) -> (r: bool) {
        match self {
            Auth::AccessToken(a) => a.can_refresh(now),
            Auth::DirectGrant(a) => a.can_refresh(now),
        }
    }
}

} // verus!
