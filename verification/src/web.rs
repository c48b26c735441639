//! What the flows consume of the host: the request it received and the
//! responses it can build.

use crate::backend::{ClientParameter, ErrorUrl};
use crate::error::OAuthError;
use crate::params::ParameterMap;
use vstd::prelude::*;

verus! {

/// The owner's answer, as the consent handler reports it.
#[derive(Clone)]
pub enum Authentication {
    /// The owner refuses.
    Failed,
    /// The handler is still talking to the owner; its response goes out as
    /// it is.
    InProgress,
    /// The owner, named by the identifier, agrees.
    Authenticated(String),
}

/// What a response carries in its body.
pub ghost enum Content {
    Empty,
    Text(Seq<char>),
    Json(Seq<char>),
}

/// What the flows rely on in a response, whatever the host makes it of.
pub ghost struct ResponseShape {
    /// The status code.
    pub status: nat,
    /// The target of a redirect.
    pub location: Option<url::Url>,
    /// The body.
    pub content: Content,
    /// The value of the `WWW-Authenticate` header.
    pub challenge: Option<Seq<char>>,
}

impl ResponseShape {
    /// A redirect to `url`.
    pub open spec fn redirect(url: url::Url) -> ResponseShape {
        ResponseShape { status: 302, location: Some(url), content: Content::Empty, challenge: None }
    }

    /// A plain text.
    pub open spec fn text(text: Seq<char>) -> ResponseShape {
        ResponseShape { status: 200, location: None, content: Content::Text(text), challenge: None }
    }

    /// A JSON document.
    pub open spec fn json(data: Seq<char>) -> ResponseShape {
        ResponseShape { status: 200, location: None, content: Content::Json(data), challenge: None }
    }

    /// The same response with status 400.
    pub open spec fn as_client_error(self) -> ResponseShape {
        ResponseShape { status: 400, ..self }
    }

    /// The same response with status 401.
    pub open spec fn as_unauthorized(self) -> ResponseShape {
        ResponseShape { status: 401, ..self }
    }

    /// The same response with a challenge for the scheme `kind`.
    pub open spec fn with_authorization(self, kind: Seq<char>) -> ResponseShape {
        ResponseShape { challenge: Some(kind), ..self }
    }
}

/// A response of the host. Each constructor may fail with the host's own
/// error; what it returns on success is stated here, and an implementation
/// is held to it.
pub trait WebResponse: Sized {
    type Error: From<OAuthError>;

    /// What the flows rely on in this response.
    spec fn shape(&self) -> ResponseShape;

    /// A response that redirects to `url`.
    fn redirect(url: url::Url) -> (made: Result<Self, Self::Error>)
        ensures
            made matches Ok(response) ==> response.shape() == ResponseShape::redirect(url),
    ;

    /// A response with a plain text body.
    fn text(text: &str) -> (made: Result<Self, Self::Error>)
        ensures
            made matches Ok(response) ==> response.shape() == ResponseShape::text(text@),
    ;

    /// A response with a JSON body.
    fn json(data: &str) -> (made: Result<Self, Self::Error>)
        ensures
            made matches Ok(response) ==> response.shape() == ResponseShape::json(data@),
    ;

    /// A response that redirects to a target that reports an error. The
    /// target is used as it is.
    fn redirect_error(target: ErrorUrl) -> (made: Result<Self, Self::Error>)
        ensures
            made matches Ok(response) ==> response.shape() == ResponseShape::redirect(target@),
    {
        Self::redirect(target.into_url())
    }

    /// Sets the status to 400.
    fn as_client_error(self) -> (made: Result<Self, Self::Error>)
        ensures
            made matches Ok(response) ==> response.shape() == self.shape().as_client_error(),
    ;

    /// Sets the status to 401.
    fn as_unauthorized(self) -> (made: Result<Self, Self::Error>)
        ensures
            made matches Ok(response) ==> response.shape() == self.shape().as_unauthorized(),
    ;

    /// Adds a `WWW-Authenticate` header for the scheme `kind`.
    fn with_authorization(self, kind: &str) -> (made: Result<Self, Self::Error>)
        ensures
            made matches Ok(response) ==> response.shape() == self.shape().with_authorization(
                kind@,
            ),
    ;
}

/// A request as the host received it. `Err` stands for a part that is
/// malformed; an empty query is `Ok` with an empty mapping.
pub trait WebRequest {
    type Error: From<OAuthError>;

    type Response: WebResponse<Error = Self::Error>;

    /// The decoded query of the url.
    fn query(&mut self) -> Result<ParameterMap, ()>;

    /// The decoded body, where it is `application/x-www-form-urlencoded`.
    fn urlbody(&mut self) -> Result<ParameterMap, ()>;

    /// The value of the `Authorization` header, or `None` without one.
    fn authheader(&mut self) -> Result<Option<String>, ()>;
}

/// Asks the resource owner whether a client may act for them.
pub trait OwnerAuthorizer {
    type Request: WebRequest;

    /// The owner's answer, and the response to send while it is pending.
    fn get_owner_authorization(
        &self,
        request: &mut Self::Request,
        client: &ClientParameter,
    ) -> Result<
        (Authentication, <Self::Request as WebRequest>::Response),
        <Self::Request as WebRequest>::Error,
    >;
}

/// Whether `raised` is what the host's error type makes of `error`.
pub open spec fn raised<E: From<OAuthError>>(error: OAuthError, raised: E) -> bool {
    call_ensures(E::from, (error,), raised)
}

/// Whether `made` is what the host's `json` returned for `data`.
pub open spec fn json_made<R: WebResponse>(data: Seq<char>, made: Result<R, R::Error>) -> bool {
    exists|text: &str| text@ == data && #[trigger] call_ensures(R::json, (text,), made)
}

/// Whether `made` is what came of `json`, then `as_client_error`: the
/// result of the last step that ran, which is the first that failed, or the
/// second.
pub open spec fn client_error_made<R: WebResponse>(
    data: Seq<char>,
    made: Result<R, R::Error>,
) -> bool {
    exists|first: Result<R, R::Error>| #[trigger]
        json_made(data, first) && match first {
            Ok(plain) => call_ensures(R::as_client_error, (plain,), made),
            Err(error) => made == Err::<R, R::Error>(error),
        }
}

/// Whether `made` is what `with_authorization` returned for `marked`.
pub open spec fn challenge_made<R: WebResponse>(
    marked: R,
    scheme: Seq<char>,
    made: Result<R, R::Error>,
) -> bool {
    exists|kind: &str|
        kind@ == scheme && #[trigger] call_ensures(R::with_authorization, (marked, kind), made)
}

/// Whether `made` is what came of `as_unauthorized`, then
/// `with_authorization`, on the outcome `first` of `json`.
pub open spec fn challenged<R: WebResponse>(
    first: Result<R, R::Error>,
    scheme: Seq<char>,
    made: Result<R, R::Error>,
) -> bool {
    match first {
        Ok(plain) => exists|second: Result<R, R::Error>| #[trigger]
            call_ensures(R::as_unauthorized, (plain,), second) && match second {
                Ok(marked) => challenge_made(marked, scheme, made),
                Err(error) => made == Err::<R, R::Error>(error),
            },
        Err(error) => made == Err::<R, R::Error>(error),
    }
}

/// Whether `made` is what came of `json`, then `as_unauthorized`, then
/// `with_authorization`: the status is set before the header is added.
pub open spec fn unauthorized_made<R: WebResponse>(
    data: Seq<char>,
    scheme: Seq<char>,
    made: Result<R, R::Error>,
) -> bool {
    exists|first: Result<R, R::Error>| #[trigger]
        json_made(data, first) && challenged(first, scheme, made)
}

/// A response made by `json` has the shape of a JSON document.
pub proof fn lemma_json_shape<R: WebResponse>(data: Seq<char>, made: Result<R, R::Error>)
    requires
        json_made(data, made),
    ensures
        made matches Ok(response) ==> response.shape() == ResponseShape::json(data),
{
}

/// A response made by `json`, then `as_client_error`, has status 400 and
/// the JSON body.
pub proof fn lemma_client_error_shape<R: WebResponse>(data: Seq<char>, made: Result<R, R::Error>)
    requires
        client_error_made(data, made),
    ensures
        made matches Ok(response) ==> response.shape() == ResponseShape::json(
            data,
        ).as_client_error(),
{
}

/// A response made by `json`, then `as_unauthorized`, then
/// `with_authorization`, has status 401, the JSON body and the challenge,
/// whatever the host makes its responses of.
pub proof fn lemma_unauthorized_shape<R: WebResponse>(
    data: Seq<char>,
    scheme: Seq<char>,
    made: Result<R, R::Error>,
)
    requires
        unauthorized_made(data, scheme, made),
    ensures
        made matches Ok(response) ==> response.shape() == ResponseShape::json(
            data,
        ).as_unauthorized().with_authorization(scheme),
        made matches Ok(response) ==> response.shape().status == 401
            && response.shape().challenge == Some(scheme),
{
}

} // verus!
