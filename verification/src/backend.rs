//! What the flows consume of the back-end: its verdicts and the capabilities
//! through which it is asked.

use crate::request::{AccessTokenParameter, AuthorizationParameter, GuardParameter};
use vstd::prelude::*;

verus! {

/// `url::Url`. The flows carry a target from the back-end to the response
/// and never look into it.
#[verifier::external_type_specification]
#[verifier::external_body]
pub struct ExUrl(url::Url);

/// The registered client that a negotiated request belongs to, as the
/// consent handler gets to see it.
pub struct ClientParameter {
    pub client_id: String,
    pub scope: Option<String>,
    pub redirect_url: url::Url,
    pub state: Option<String>,
}

/// A redirect target that already carries the error it reports.
pub struct ErrorUrl {
    url: url::Url,
}

impl View for ErrorUrl {
    type V = url::Url;

    closed spec fn view(&self) -> url::Url {
        self.url
    }
}

impl ErrorUrl {
    /// Marks `url` as the target of an error redirect.
    pub fn new(url: url::Url) -> (target: Self)
        ensures
            target@ == url,
    {
        ErrorUrl { url }
    }

    /// The target itself.
    pub fn into_url(self) -> (url: url::Url)
        ensures
            url == self@,
    {
        self.url
    }
}

/// Why the back-end does not go on with an authorization code request.
pub enum CodeError {
    /// No redirect target can be trusted: the client learns nothing.
    Ignore,
    /// The error is reported to the client at this target.
    Redirect(ErrorUrl),
}

/// The body of a successful access token response.
pub struct TokenResponse {
    json: String,
}

impl View for TokenResponse {
    type V = Seq<char>;

    closed spec fn view(&self) -> Seq<char> {
        self.json@
    }
}

impl TokenResponse {
    /// A token response with the given JSON encoding.
    pub fn new(json: String) -> (token: Self)
        ensures
            token@ == json@,
    {
        TokenResponse { json }
    }

    /// The JSON encoding.
    pub fn to_json(&self) -> (json: &str)
        ensures
            json@ == self@,
    {
        self.json.as_str()
    }
}

/// Why the issuer does not redeem a code. Each carries the JSON encoding of
/// the error.
pub enum IssuerError {
    /// The request itself is at fault.
    Invalid(String),
    /// The client did not prove who it is; the second field is the
    /// authentication scheme to challenge it with.
    Unauthorized(String, String),
}

/// Why the guard does not let a request through.
pub enum AccessError {
    /// The request was malformed.
    InvalidRequest,
    /// The token is missing, not valid, or does not cover the resource.
    AccessDenied,
}

/// The back-end's side of an authorization code request.
pub trait CodeRef: Sized {
    /// A request whose client, redirect target and scope were accepted.
    type Negotiated: Negotiated;

    /// Holds the request against the registered clients.
    fn negotiate(self, request: &AuthorizationParameter) -> Result<Self::Negotiated, CodeError>;
}

/// A negotiated authorization code request. It is used up by the owner's
/// decision, whichever it is.
pub trait Negotiated: Sized {
    /// The client that asks, for the consent handler.
    fn negotiated(&self) -> &ClientParameter;

    /// Issues a code bound to the owner; gives the target that the client
    /// receives it at.
    fn authorize(self, owner_id: String) -> Result<url::Url, CodeError>;

    /// Records the owner's refusal; gives the target that the client learns
    /// of it at.
    fn deny(self) -> Result<url::Url, CodeError>;
}

/// The back-end's side of an access token request.
pub trait IssuerRef: Sized {
    /// Redeems the authorization code of the request.
    fn use_code(self, request: &AccessTokenParameter) -> Result<TokenResponse, IssuerError>;
}

/// The back-end's side of a request for a guarded resource.
pub trait GuardRef: Sized {
    /// Decides whether the request may pass.
    fn protect(self, request: &GuardParameter) -> Result<(), AccessError>;
}

} // verus!
