//! The error taxonomy shared by every operation of the library.
use vstd::prelude::*;

use crate::json::{
    json_members, json_opt_string_value, json_string_value, member, member_spec, read_opt_string,
    read_string, split_object, utf8_text,
};

verus! {

/// The kind of resource that a lookup was about.
#[derive(Debug, Clone, Copy, PartialEq, Eq, Structural)]
pub enum ResourceType {
    Client,
    Group,
    User,
}

impl ResourceType {
    pub open spec fn label(self) -> Seq<char> {
        match self {
            ResourceType::Client => "client"@,
            ResourceType::Group => "group"@,
            ResourceType::User => "user"@,
        }
    }

    /// The lower-case name of the resource kind, as it appears in messages.
    pub fn name(&self) -> (r: &'static str)
        ensures
            r@ == self.label(),
    {
        match self {
            ResourceType::Client => "client",
            ResourceType::Group => "group",
            ResourceType::User => "user",
        }
    }
}

/// JSON body returned by the server for errors.
#[derive(Debug, Clone)]
pub struct KeycloakErrorBody {
    pub error: String,
    pub error_description: Option<String>,
}

/// `error`, then `: description` when a description is present.
pub open spec fn error_message(error: Seq<char>, description: Option<Seq<char>>) -> Seq<char> {
    match description {
        None => error,
        Some(d) => error + ": "@ + d,
    }
}

/// The error body that the bytes `b` carry: a JSON object with a string member
/// `error` and an optional (absent or `null`) string member `error_description`.
pub open spec fn error_body_spec(b: Seq<u8>) -> Option<(Seq<char>, Option<Seq<char>>)> {
    if !vstd::utf8::valid_utf8(b) {
        None
    } else {
        match json_members(vstd::utf8::decode_utf8(b)) {
            None => None,
            Some(ms) => match member_spec(ms, "error"@) {
                None => None,
                Some(e) => match json_string_value(e) {
                    None => None,
                    Some(error) => match member_spec(ms, "error_description"@) {
                        None => Some((error, None)),
                        Some(d) => match json_opt_string_value(d) {
                            None => None,
                            Some(description) => Some((error, description)),
                        },
                    },
                },
            },
        }
    }
}

pub open spec fn opt_view(o: Option<String>) -> Option<Seq<char>> {
    match o {
        None => None,
        Some(s) => Some(s@),
    }
}

impl KeycloakErrorBody {
    pub open spec fn spec_message(&self) -> Seq<char> {
        error_message(self.error@, opt_view(self.error_description))
    }

    /// The human-readable text of the error body.
    pub fn message(&self) -> (r: String)
        ensures
            r@ == self.spec_message(),
    {
        let mut text = self.error.clone();
        match &self.error_description {
            None => {},
            Some(description) => {
                text.append(": ");
                text.append(description.as_str());
            },
        }
        text
    }

    /// Decodes an error body from the raw bytes of a response.
    pub fn from_bytes(bytes: &[u8]) -> (r: Option<KeycloakErrorBody>)
        ensures
            match error_body_spec(bytes@) {
                None => r is None,
                Some(body) => r is Some && r->Some_0.error@ == body.0 && opt_view(
                    r->Some_0.error_description,
                ) == body.1,
            },
    {
        proof {
            reveal_strlit("error");
            reveal_strlit("error_description");
        }
        let text = match utf8_text(bytes) {
            None => return None,
            Some(t) => t,
        };
        let members = match split_object(text.as_str()) {
            Err(_) => return None,
            Ok(m) => m,
        };
        let error = match member(&members, "error") {
            None => return None,
            Some(raw) => match read_string(raw.as_str()) {
                Err(_) => return None,
                Ok(e) => e,
            },
        };
        let error_description = match member(&members, "error_description") {
            None => None,
            Some(raw) => match read_opt_string(raw.as_str()) {
                Err(_) => return None,
                Ok(d) => d,
            },
        };
        Some(KeycloakErrorBody { error, error_description })
    }
}

/// What went wrong.
#[derive(Debug, Clone)]
pub enum ErrorKind {
    /// A payload could not be decoded.
    Deserialize,
    /// The transport failed.
    Reqwest,
    /// No access token is available.
    MissingAccessToken,
    /// The available tokens have expired and cannot be renewed.
    TokenExpired,
    /// Authentication failed.
    Authentication,
    /// The server answered with an unsuccessful status.
    ResponseError { status: u16, response: Option<Vec<u8>> },
    /// The server's own structured error.
    KeycloakError(KeycloakErrorBody),
    /// A low-level operation failed.
    ApiError,
    /// The requested resource does not exist.
    NotFound(ResourceType),
    /// More than one resource matched where one was expected.
    NotUnique(ResourceType),
    /// A resource lacks the id that the operation needs.
    MissingId,
    /// A required field is absent.
    MissingField(String),
    /// A record carries another type than the one expected (expected, actual).
    WrongType(String, String),
    /// Anything else.
    Other,
}

/// The cause attached to an error.
#[derive(Debug)]
pub enum InnerError {
    Keycloak(Box<KeycloakError>),
    Serde(serde_json::Error),
    /// A failure of the transport: the HTTP status it carries, if any, and its text.
    Transport { status: Option<u16>, message: String },
    /// Any other failure, by its text.
    Other(String),
}

/// An error of this library: its kind, and the cause that led to it.
#[derive(Debug)]
pub struct KeycloakError {
    pub kind: ErrorKind,
    pub source: Option<InnerError>,
}

/// The HTTP status associated with an error: the status of a response error,
/// else that of the error it was caused by.
pub open spec fn status_spec(e: KeycloakError) -> Option<u16>
    decreases e,
{
    match e.kind {
        ErrorKind::ResponseError { status, .. } => Some(status),
        _ => match e.source {
            Some(InnerError::Keycloak(inner)) => status_spec(*inner),
            Some(InnerError::Transport { status, .. }) => status,
            _ => None,
        },
    }
}

impl KeycloakError {
    pub fn new(kind: ErrorKind, inner: Option<InnerError>) -> (r: KeycloakError)
        ensures
            r.kind == kind,
            r.source == inner,
    {
        KeycloakError { kind, source: inner }
    }

    pub fn new_kind(kind: ErrorKind) -> (r: KeycloakError)
        ensures
            r.kind == kind,
            r.source is None,
    {
        KeycloakError { kind, source: None }
    }

    /// An error of kind `kind` caused by `cause`.
    pub fn caused_by(kind: ErrorKind, cause: KeycloakError) -> (r: KeycloakError)
        ensures
            r.kind == kind,
            r.source == Some(InnerError::Keycloak(Box::new(cause))),
    {
        KeycloakError { kind, source: Some(InnerError::Keycloak(Box::new(cause))) }
    }

    pub fn kind(&self) -> (r: &ErrorKind)
        ensures
            *r == self.kind,
    {
        &self.kind
    }

    /// The HTTP response status associated with this error, if any.
    pub fn status(&self) -> (r: Option<u16>)
        ensures
            r == status_spec(*self),
        decreases *self,
    {
        if let ErrorKind::ResponseError { status, .. } = &self.kind {
            return Some(*status);
        }
        match &self.source {
            Some(InnerError::Keycloak(inner)) => inner.status(),
            Some(InnerError::Transport { status, .. }) => *status,
            _ => None,
        }
    }
}

/// A decoding failure, with serde_json's error as its cause.
pub fn deserialize(err: serde_json::Error) -> (r: KeycloakError)
    ensures
        r.kind is Deserialize,
        r.source == Some(InnerError::Serde(err)),
{
    KeycloakError::new(ErrorKind::Deserialize, Some(InnerError::Serde(err)))
}

/// Whether `e` is the error for an unsuccessful response with status
/// `status` and body `bytes`: a response error, caused by the server's
/// structured error exactly when the body holds one.
pub open spec fn is_response_error(e: KeycloakError, status: u16, bytes: Vec<u8>) -> bool {
    &&& e.kind == (ErrorKind::ResponseError { status, response: Some(bytes) })
    &&& match error_body_spec(bytes@) {
        None => e.source is None,
        Some(body) => match e.source {
            Some(InnerError::Keycloak(inner)) => inner.source is None && match inner.kind {
                ErrorKind::KeycloakError(b) => b.error@ == body.0 && opt_view(b.error_description)
                    == body.1,
                _ => false,
            },
            _ => false,
        },
    }
}

/// The error for an unsuccessful response with status `status` and body
/// `bytes`: a response error, caused by the server's structured error when the
/// body holds one.
pub fn from_response(status: u16, bytes: Vec<u8>) -> (r: KeycloakError)
    ensures
        is_response_error(r, status, bytes),
{
    let body = KeycloakErrorBody::from_bytes(bytes.as_slice());
    let kind = ErrorKind::ResponseError { status, response: Some(bytes) };
    match body {
        Some(body) => KeycloakError::caused_by(
            kind,
            KeycloakError::new_kind(ErrorKind::KeycloakError(body)),
        ),
        None => KeycloakError::new_kind(kind),
    }
}

/// A transport failure, with the HTTP status it carries (if any) and its text.
pub fn transport_failure(status: Option<u16>, message: String) -> (r: KeycloakError)
    ensures
        r.kind is Reqwest,
        r.source == Some(InnerError::Transport { status, message }),
        status_spec(r) == status,
{
    KeycloakError::new(ErrorKind::Reqwest, Some(InnerError::Transport { status, message }))
}

/// The error for a failed low-level operation, given the status of the
/// response (when one arrived) and its payload (when it could not be decoded
/// into the expected value): an `ApiError` whose cause describes the response.
pub fn api_failure(status: Option<u16>, payload: Option<Vec<u8>>) -> (r: KeycloakError)
    ensures
        r.kind is ApiError,
        match status {
            None => r.source is None,
            Some(s) => match r.source {
                Some(InnerError::Keycloak(inner)) => match payload {
                    None => inner.kind == (ErrorKind::ResponseError { status: s, response: None })
                        && inner.source is None,
                    Some(bytes) => is_response_error(*inner, s, bytes),
                },
                _ => false,
            },
        },
        status_spec(r) == status,
{
    match status {
        None => {
            let r = KeycloakError::new_kind(ErrorKind::ApiError);
            assert(status_spec(r) == None::<u16>);
            r
        },
        Some(s) => {
            let inner = match payload {
                None => KeycloakError::new_kind(
                    ErrorKind::ResponseError { status: s, response: None },
                ),
                Some(bytes) => from_response(s, bytes),
            };
            assert(status_spec(inner) == Some(s));
            let r = KeycloakError::caused_by(ErrorKind::ApiError, inner);
            assert(status_spec(r) == status_spec(inner));
            r
        },
    }
}

} // verus!
