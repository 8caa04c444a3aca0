//! The decisions a session takes around its credential provider: whether a
//! request may go ahead, must renew the token first, or cannot go on; and
//! what a login or a renewal leaves the session with.
//!
//! The caller runs the exchanges and holds the locks: it asks for a decision
//! under shared access, and when a renewal is called for it takes exclusive
//! access and asks again before renewing, so that requests which queued
//! behind a renewal do not renew once more.
use vstd::prelude::*;

use crate::auth::{AuthenticationProvider, DirectGrantAuth, REFRESH_MARGIN_MS, instant_after};
use crate::error::{ErrorKind, InnerError, KeycloakError};
use crate::rest::TokenResponse;

verus! {

/// What a request does about the token before it is sent.
#[derive(Debug, Clone, Copy, PartialEq, Eq, Structural)]
pub enum RefreshDecision {
    /// The token is usable: go ahead.
    Proceed,
    /// Renew the token first.
    Refresh,
    /// The token is dead and cannot be renewed.
    Expired,
}

pub open spec fn decide(valid: bool, needs_refresh: bool, can_refresh: bool) -> RefreshDecision {
    if valid && !needs_refresh {
        RefreshDecision::Proceed
    } else if can_refresh {
        RefreshDecision::Refresh
    } else if valid {
        RefreshDecision::Proceed
    } else {
        RefreshDecision::Expired
    }
}

pub open spec fn spec_decision<A: AuthenticationProvider>(auth: A, now: u64) -> RefreshDecision {
    decide(auth.spec_token_is_valid(now), auth.spec_needs_refresh(now), auth.spec_can_refresh(now))
}

/// Decides, at `now`, whether a request may use the current token: it goes
/// ahead while the token is valid and not due for renewal; a token that is
/// due (or invalid) is renewed when the provider can renew it; a valid token
/// that cannot be renewed is still used; otherwise the session is dead.
pub fn refresh_decision<A: AuthenticationProvider>(auth: &A, now: u64) -> (r: RefreshDecision)
    ensures
        r == spec_decision(*auth, now),
{
    let valid = auth.token_is_valid(now);
    let needs = auth.needs_refresh(now);
    if valid && !needs {
        RefreshDecision::Proceed
    } else if auth.can_refresh(now) {
        RefreshDecision::Refresh
    } else if valid {
        RefreshDecision::Proceed
    } else {
        RefreshDecision::Expired
    }
}

/// The error that a request meets in a dead session.
pub fn expired_error() -> (r: KeycloakError)
    ensures
        r.kind is TokenExpired,
        r.source is None,
{
    KeycloakError::new_kind(ErrorKind::TokenExpired)
}

pub open spec fn bearer(token: Seq<char>) -> Seq<char> {
    "Bearer "@ + token
}

/// The value of the `Authorization` header that carries `token`.
pub fn authorization_header(token: &str) -> (r: String)
    ensures
        r@ == bearer(token@),
{
    let mut header = String::from_str("Bearer ");
    header.append(token);
    header
}

/// The outcome of building a session once the provider's login ended with
/// `login`: a login error becomes an authentication error (kept as it is when
/// it already is one, else as its cause); a login without a valid token at
/// `now` fails with `MissingAccessToken`; otherwise the session starts with
/// the header that carries the token.
pub fn login_outcome<A: AuthenticationProvider>(
    auth: &A,
    login: Result<(), KeycloakError>,
    now: u64,
) -> (r: Result<String, KeycloakError>)
    ensures
        match login {
            Err(e) => if e.kind is Authentication {
                r == Err::<String, KeycloakError>(e)
            } else {
                r is Err && r->Err_0.kind is Authentication && r->Err_0.source == Some(
                    InnerError::Keycloak(Box::new(e)),
                )
            },
            Ok(_) => match auth.spec_access_token() {
                Some(token) => if auth.spec_token_is_valid(now) {
                    r is Ok && r->Ok_0@ == bearer(token)
                } else {
                    r is Err && r->Err_0.kind is MissingAccessToken && r->Err_0.source is None
                },
                None => r is Err && r->Err_0.kind is MissingAccessToken && r->Err_0.source is None,
            },
        },
{
    match login {
        Err(e) => {
            if let ErrorKind::Authentication = e.kind {
                Err(e)
            } else {
                Err(KeycloakError::caused_by(ErrorKind::Authentication, e))
            }
        },
        Ok(()) => {
            if !auth.token_is_valid(now) {
                return Err(KeycloakError::new_kind(ErrorKind::MissingAccessToken));
            }
            match auth.access_token() {
                None => Err(KeycloakError::new_kind(ErrorKind::MissingAccessToken)),
                Some(token) => Ok(authorization_header(token)),
            }
        },
    }
}

/// The outcome of a renewal that ended with `refresh`: its error as it is;
/// after a successful renewal, the header that carries the new token, or
/// `MissingAccessToken` when the provider holds none.
pub fn refresh_outcome<A: AuthenticationProvider>(
    auth: &A,
    refresh: Result<(), KeycloakError>,
) -> (r: Result<String, KeycloakError>)
    ensures
        match refresh {
            Err(e) => r == Err::<String, KeycloakError>(e),
            Ok(_) => match auth.spec_access_token() {
                Some(token) => r is Ok && r->Ok_0@ == bearer(token),
                None => r is Err && r->Err_0.kind is MissingAccessToken && r->Err_0.source is None,
            },
        },
{
    match refresh {
        Err(e) => Err(e),
        Ok(()) => match auth.access_token() {
            None => Err(KeycloakError::new_kind(ErrorKind::MissingAccessToken)),
            Some(token) => Ok(authorization_header(token)),
        },
    }
}

/// Remembers whether a renewal has failed. After a failed renewal the
/// session no longer renews: a token that is still valid goes on being used,
/// and once it is not, requests fail with `TokenExpired`.
#[derive(Debug, Clone, Copy, PartialEq, Eq, Structural)]
pub struct RefreshGate {
    pub failed: bool,
}

impl RefreshGate {
    /// A gate for a session whose renewals have all succeeded so far.
    pub fn new() -> (r: Self)
        ensures
            !r.failed,
    {
        RefreshGate { failed: false }
    }

    pub open spec fn spec_decide<A: AuthenticationProvider>(&self, auth: A, now: u64) -> RefreshDecision {
        decide(
            auth.spec_token_is_valid(now),
            auth.spec_needs_refresh(now),
            auth.spec_can_refresh(now) && !self.failed,
        )
    }

    /// Decides as `refresh_decision` does, except that no renewal is called
    /// for once one has failed.
    pub fn decide<A: AuthenticationProvider>(&self, auth: &A, now: u64) -> (r: RefreshDecision)
        ensures
            r == self.spec_decide(*auth, now),
            !self.failed ==> r == spec_decision(*auth, now),
    {
        let d = refresh_decision(auth, now);
        if self.failed {
            if let RefreshDecision::Refresh = d {
                if auth.token_is_valid(now) {
                    return RefreshDecision::Proceed;
                } else {
                    return RefreshDecision::Expired;
                }
            }
        }
        d
    }

    /// Records the outcome of a renewal.
    pub fn record(&mut self, outcome: &Result<String, KeycloakError>)
        ensures
            final(self).failed == (old(self).failed || outcome is Err),
    {
        if outcome.is_err() {
            self.failed = true;
        }
    }
}

/// Requests pass the exclusive section one after the other, at the instants
/// `arrivals`. Each asks for a decision again; one that is told to renew
/// stores `response`, the answer of the token endpoint, at its own instant.
/// Gives the provider afterwards and the number of renewals performed.
pub open spec fn serve<A: AuthenticationProvider>(auth: A, arrivals: Seq<u64>, response: TokenResponse) -> (
    A,
    nat,
)
    decreases arrivals.len(),
{
    if arrivals.len() == 0 {
        (auth, 0)
    } else {
        let (before, n) = serve(auth, arrivals.drop_last(), response);
        let t = arrivals.last();
        if spec_decision(before, t) == RefreshDecision::Refresh {
            (before.spec_stored(response, t), n + 1)
        } else {
            (before, n)
        }
    }
}

/// Requests that queue for a renewal which the first of them finds due make
/// exactly one renewal between them, whatever the provider, as long as the
/// renewed token is valid and not due at each of their instants; and each
/// of them then uses such a token when it goes ahead.
pub proof fn lemma_single_refresh<A: AuthenticationProvider>(
    auth: A,
    arrivals: Seq<u64>,
    response: TokenResponse,
)
    requires
        arrivals.len() >= 1,
        spec_decision(auth, arrivals[0]) == RefreshDecision::Refresh,
        forall|i: int|
            0 <= i < arrivals.len() ==> {
                let renewed = auth.spec_stored(response, arrivals[0]);
                renewed.spec_token_is_valid(#[trigger] arrivals[i]) && !renewed.spec_needs_refresh(
                    arrivals[i],
                )
            },
    ensures
        serve(auth, arrivals, response).1 == 1,
        forall|i: int|
            0 <= i < arrivals.len() ==> {
                let now = #[trigger] arrivals[i];
                let held = serve(auth, arrivals.take(i + 1), response).0;
                held.spec_token_is_valid(now) && !held.spec_needs_refresh(now)
            },
{
    let renewed = auth.spec_stored(response, arrivals[0]);
    assert forall|k: int| 1 <= k <= arrivals.len() implies serve(auth, arrivals.take(k), response)
        == (renewed, 1nat) by {
        lemma_prefix(auth, arrivals, response, k);
    }
    assert(arrivals.take(arrivals.len() as int) =~= arrivals);
}

proof fn lemma_prefix<A: AuthenticationProvider>(auth: A, arrivals: Seq<u64>, response: TokenResponse, k: int)
    requires
        1 <= k <= arrivals.len(),
        spec_decision(auth, arrivals[0]) == RefreshDecision::Refresh,
        forall|i: int|
            0 <= i < arrivals.len() ==> {
                let renewed = auth.spec_stored(response, arrivals[0]);
                renewed.spec_token_is_valid(#[trigger] arrivals[i]) && !renewed.spec_needs_refresh(
                    arrivals[i],
                )
            },
    ensures
        serve(auth, arrivals.take(k), response) == (auth.spec_stored(response, arrivals[0]), 1nat),
    decreases k,
{
    let prefix = arrivals.take(k);
    assert(prefix.drop_last() =~= arrivals.take(k - 1));
    assert(prefix.last() == arrivals[k - 1]);
    if k == 1 {
        assert(arrivals.take(0) =~= Seq::<u64>::empty());
        assert(serve(auth, arrivals.take(0), response) == (auth, 0nat));
    } else {
        lemma_prefix(auth, arrivals, response, k - 1);
        let t = arrivals[k - 1];
        let renewed = auth.spec_stored(response, arrivals[0]);
        assert(renewed.spec_token_is_valid(t) && !renewed.spec_needs_refresh(t));
        assert(spec_decision(renewed, t) == RefreshDecision::Proceed);
    }
}

/// With the password-grant provider: requests that queue for a renewal
/// which the first of them finds due make exactly one renewal, as long as
/// they all arrive at least `REFRESH_MARGIN_MS` before the renewed token
/// expires; each of them then uses a token valid, and not due, at its instant.
pub proof fn lemma_single_refresh_direct_grant(
    auth: DirectGrantAuth,
    arrivals: Seq<u64>,
    response: TokenResponse,
)
    requires
        arrivals.len() >= 1,
        spec_decision(auth, arrivals[0]) == RefreshDecision::Refresh,
        forall|i: int|
            0 <= i < arrivals.len() ==> #[trigger] arrivals[i] as int + REFRESH_MARGIN_MS
                <= instant_after(arrivals[0], response.expires_in),
    ensures
        serve(auth, arrivals, response).1 == 1,
        forall|i: int|
            0 <= i < arrivals.len() ==> {
                let now = #[trigger] arrivals[i];
                let held = serve(auth, arrivals.take(i + 1), response).0;
                held.spec_token_is_valid(now) && !held.spec_needs_refresh(now)
            },
{
    let renewed = auth.spec_stored(response, arrivals[0]);
    assert forall|i: int| 0 <= i < arrivals.len() implies renewed.spec_token_is_valid(
        #[trigger] arrivals[i],
    ) && !renewed.spec_needs_refresh(arrivals[i]) by {
        assert(arrivals[i] as int + REFRESH_MARGIN_MS <= instant_after(arrivals[0], response.expires_in));
    }
    lemma_single_refresh(auth, arrivals, response);
}

} // verus!
