//! The authorization code request: the back-end negotiates, the owner is
//! asked, and the client is sent on with a code or with an error.

use crate::backend::{ClientParameter, CodeError, CodeRef, Negotiated};
use crate::params::ParameterMap;
use crate::error::OAuthError;
use crate::request::{transport_view, AuthorizationParameter, AuthorizationView};
use crate::web::{raised, Authentication, OwnerAuthorizer, ResponseShape, WebRequest, WebResponse};
use vstd::prelude::*;

verus! {

/// The authorization code request.
pub struct AuthorizationFlow;

/// The parameters of an authorization code request, ready to be handled,
/// and the request itself for the consent handler to read.
pub struct PreparedAuthorization<'l, Req: WebRequest> {
    request: &'l mut Req,
    urldecoded: AuthorizationParameter,
}

impl<'l, Req: WebRequest> PreparedAuthorization<'l, Req> {
    /// The parameters that the back-end will be asked with.
    pub closed spec fn parameter(&self) -> AuthorizationParameter {
        self.urldecoded
    }

    /// The request as it stands, for the consent handler.
    pub closed spec fn request(&self) -> Req {
        *self.request
    }

    /// The parameters that the back-end will be asked with.
    pub fn params(&self) -> (params: &AuthorizationParameter)
        ensures
            *params == self.parameter(),
    {
        &self.urldecoded
    }
}

impl AuthorizationFlow {
    /// Whether `made` answers a refusal of the back-end. Where no target can
    /// be trusted the host is told of an internal error and nothing is sent
    /// to the client. Else `made` is what the host's `redirect_error` returned
    /// for the target that the back-end named.
    pub open spec fn refused<R: WebResponse>(error: CodeError, made: Result<R, R::Error>) -> bool {
        match error {
            CodeError::Ignore => made matches Err(failure) && raised(
                OAuthError::InternalCodeError(),
                failure,
            ),
            CodeError::Redirect(target) => call_ensures(R::redirect_error, (target,), made),
        }
    }

    /// Whether `made` answers what came of the owner's decision: what the
    /// host's `redirect` returned for the target that the back-end gave, or
    /// the answer to its refusal.
    pub open spec fn concluded<R: WebResponse>(
        decision: Result<url::Url, CodeError>,
        made: Result<R, R::Error>,
    ) -> bool {
        match decision {
            Ok(target) => call_ensures(R::redirect, (target,), made),
            Err(error) => Self::refused(error, made),
        }
    }

    /// Whether `made` answers what the consent handler reported for a
    /// negotiated request. A failure of the handler is passed on. While the
    /// owner is being asked, the handler's response goes out as it is, and
    /// the back-end is not asked again. A refusal goes to `deny`, and an
    /// agreement to `authorize` with the owner's identifier: one of the two,
    /// once, and `made` concludes what it returned.
    pub open spec fn decided<Req: WebRequest, N: Negotiated>(
        negotiated: N,
        consent: Result<(Authentication, Req::Response), Req::Error>,
        made: Result<Req::Response, Req::Error>,
    ) -> bool {
        match consent {
            Err(failure) => made == Err::<Req::Response, Req::Error>(failure),
            Ok((Authentication::InProgress, response)) => made == Ok::<Req::Response, Req::Error>(
                response,
            ),
            Ok((Authentication::Failed, _)) => exists|decision: Result<url::Url, CodeError>| #[trigger]
                call_ensures(N::deny, (negotiated,), decision) && Self::concluded(decision, made),
            Ok((Authentication::Authenticated(owner), _)) => exists|
                decision: Result<url::Url, CodeError>,
            | #[trigger]
                call_ensures(N::authorize, (negotiated, owner), decision) && Self::concluded(
                    decision,
                    made,
                ),
        }
    }

    /// Whether `consent` is what the handler reported when it was asked
    /// about the negotiated request: it is handed the request as it stands
    /// and the client that the back-end names.
    pub open spec fn consulted<Req: WebRequest, Auth: OwnerAuthorizer<Request = Req>, N: Negotiated>(
        negotiated: N,
        request: Req,
        page_handler: &Auth,
        consent: Result<(Authentication, Req::Response), Req::Error>,
    ) -> bool {
        exists|asked: &mut Req, client: &ClientParameter|
            *asked == request && call_ensures(N::negotiated, (&negotiated,), client)
                && #[trigger] call_ensures(
                Auth::get_owner_authorization,
                (page_handler, asked, client),
                consent,
            )
    }

    /// Whether `made` is the outcome of the exchange for the given
    /// parameters: the back-end negotiates them, once. Its refusal is
    /// answered at once. Else the consent handler is asked about the
    /// negotiated request, once, and `made` answers its report.
    pub open spec fn handled<Req: WebRequest, Auth: OwnerAuthorizer<Request = Req>, C: CodeRef>(
        granter: C,
        parameter: AuthorizationParameter,
        request: Req,
        page_handler: &Auth,
        made: Result<Req::Response, Req::Error>,
    ) -> bool {
        exists|verdict: Result<C::Negotiated, CodeError>| #[trigger]
            call_ensures(C::negotiate, (granter, &parameter), verdict) && match verdict {
                Err(error) => Self::refused(error, made),
                Ok(negotiated) => exists|
                    consent: Result<(Authentication, Req::Response), Req::Error>,
                | #[trigger]
                    Self::consulted(negotiated, request, page_handler, consent) && Self::decided::<
                        Req,
                        C::Negotiated,
                    >(negotiated, consent, made),
            }
    }

    /// Reads the query of the request into parameters for the back-end, and
    /// keeps the request for the consent handler. This never fails: a query
    /// that the transport refuses gives the invalid parameters, which the
    /// back-end then rejects.
    pub fn prepare<'l, W: WebRequest>(incoming: &'l mut W) -> (prepared: Result<
        PreparedAuthorization<'l, W>,
        W::Error,
    >)
        ensures
            prepared matches Ok(prepared) && exists|
                asked: &mut W,
                query: Result<ParameterMap, ()>,
            |
                *asked == *old(incoming) && prepared.request() == *final(asked)
                    && #[trigger] call_ensures(W::query, (asked,), query)
                    && prepared.parameter()@ == AuthorizationView::decoded(transport_view(query)),
    {
        let query = incoming.query();
        let urldecoded = AuthorizationParameter::decode(query);
        Ok(PreparedAuthorization { request: incoming, urldecoded })
    }

    /// Answers a refusal of the back-end.
    pub fn refuse<R: WebResponse>(error: CodeError) -> (made: Result<R, R::Error>)
        ensures
            Self::refused(error, made),
    {
        match error {
            CodeError::Ignore => Err(R::Error::from(OAuthError::InternalCodeError())),
            CodeError::Redirect(target) => R::redirect_error(target),
        }
    }

    /// Answers what came of the owner's decision.
    pub fn conclude<R: WebResponse>(decision: Result<url::Url, CodeError>) -> (made: Result<
        R,
        R::Error,
    >)
        ensures
            Self::concluded(decision, made),
    {
        match decision {
            Ok(target) => R::redirect(target),
            Err(error) => Self::refuse(error),
        }
    }

    /// Drives the exchange: negotiates the prepared parameters with the
    /// back-end, asks the consent handler, and answers the owner's decision.
    pub fn handle<'c, Req, Auth, C>(
        granter: C,
        prepared: PreparedAuthorization<'c, Req>,
        page_handler: &Auth,
    ) -> (made: Result<Req::Response, Req::Error>) where
        Req: WebRequest,
        Auth: OwnerAuthorizer<Request = Req>,
        C: CodeRef,
        ensures
            Self::handled(granter, prepared.parameter(), prepared.request(), page_handler, made),
    {
        let PreparedAuthorization { request, urldecoded } = prepared;
        let verdict = granter.negotiate(&urldecoded);
        let negotiated = match verdict {
            Ok(negotiated) => negotiated,
            Err(error) => {
                return Self::refuse(error);
            },
        };
        let ghost accepted = negotiated;
        let consent = page_handler.get_owner_authorization(request, negotiated.negotiated());
        let ghost reported = consent;
        assert(Self::consulted(accepted, prepared.request(), page_handler, reported));
        let decision = match consent {
            Err(failure) => {
                assert(Self::decided::<Req, C::Negotiated>(accepted, reported, Err(failure)));
                return Err(failure);
            },
            Ok((Authentication::InProgress, response)) => {
                assert(Self::decided::<Req, C::Negotiated>(accepted, reported, Ok(response)));
                return Ok(response);
            },
            Ok((Authentication::Failed, _)) => negotiated.deny(),
            Ok((Authentication::Authenticated(owner), _)) => negotiated.authorize(owner),
        };
        let made = Self::conclude(decision);
        assert(Self::decided::<Req, C::Negotiated>(accepted, reported, made));
        made
    }
}

/// A refusal that names a target is answered, where the host can build the
/// response, by a redirect to that very target.
pub proof fn lemma_refused_target<R: WebResponse>(error: CodeError, made: Result<R, R::Error>)
    requires
        AuthorizationFlow::refused(error, made),
    ensures
        error is Ignore ==> made is Err,
        error matches CodeError::Redirect(target) ==> (made matches Ok(response)
            ==> response.shape() == ResponseShape::redirect(target@)),
{
}

/// What the owner decided selects what the back-end is asked. A failure of
/// the handler and a pending consent end the exchange with what the handler
/// gave, and no answer of the back-end enters the outcome. A refusal is
/// concluded from `deny` and an agreement from `authorize`: never both.
pub proof fn lemma_decision_is_exclusive<Req: WebRequest, N: Negotiated>(
    negotiated: N,
    consent: Result<(Authentication, Req::Response), Req::Error>,
    made: Result<Req::Response, Req::Error>,
)
    requires
        AuthorizationFlow::decided::<Req, N>(negotiated, consent, made),
    ensures
        consent matches Err(failure) ==> made == Err::<Req::Response, Req::Error>(failure),
        consent matches Ok((Authentication::InProgress, response)) ==> made == Ok::<
            Req::Response,
            Req::Error,
        >(response),
        consent matches Ok((Authentication::Failed, _)) ==> exists|
            decision: Result<url::Url, CodeError>,
        | #[trigger]
            call_ensures(N::deny, (negotiated,), decision) && AuthorizationFlow::concluded(
                decision,
                made,
            ),
        consent matches Ok((Authentication::Authenticated(owner), _)) ==> exists|
            decision: Result<url::Url, CodeError>,
        | #[trigger]
            call_ensures(N::authorize, (negotiated, owner), decision)
                && AuthorizationFlow::concluded(decision, made),
{
}

/// A decision that gives a target is answered, where the host can build the
/// response, by a redirect to that very target.
pub proof fn lemma_concluded_target<R: WebResponse>(
    decision: Result<url::Url, CodeError>,
    made: Result<R, R::Error>,
)
    requires
        AuthorizationFlow::concluded(decision, made),
    ensures
        decision matches Ok(target) ==> (made matches Ok(response) ==> response.shape()
            == ResponseShape::redirect(target)),
        decision matches Err(CodeError::Redirect(target)) ==> (made matches Ok(response)
            ==> response.shape() == ResponseShape::redirect(target@)),
        decision matches Err(CodeError::Ignore) ==> made is Err,
{
}

} // verus!
