//! The access token request: client credentials from the header, the code
//! from the body, and the issuer's verdict as a JSON response.

use crate::backend::{IssuerError, IssuerRef, TokenResponse};
use crate::basic::{basic_credentials, credentials_view, parse_basic};
use crate::params::ParameterMap;
use crate::request::{
    extract_access_token, header_view, transport_view, AccessTokenParameter, AccessTokenView,
    Parameters,
};
use crate::web::{
    challenge_made, challenged, client_error_made, json_made, lemma_client_error_shape,
    lemma_json_shape, lemma_unauthorized_shape, unauthorized_made, ResponseShape, WebRequest,
    WebResponse,
};
use core::marker::PhantomData;
use vstd::prelude::*;

verus! {

/// The access token request.
pub struct GrantFlow;

/// The parameters of an access token request, ready to be handled.
pub struct PreparedGrant<Req: WebRequest> {
    params: AccessTokenParameter,
    req: PhantomData<Req>,
}

impl<Req: WebRequest> PreparedGrant<Req> {
    /// The parameters that the issuer will be asked with.
    pub closed spec fn parameter(self) -> AccessTokenParameter {
        self.params
    }

    /// The parameters that the issuer will be asked with.
    pub fn params(&self) -> (params: &AccessTokenParameter)
        ensures
            *params == self.parameter(),
    {
        &self.params
    }
}

/// The credentials of a header as plain values: `Ok(None)` without a
/// header, `Err` for a header that is refused.
pub open spec fn credentials_result(credentials: Result<Option<(String, Vec<u8>)>, ()>) -> Result<
    Option<(Seq<char>, Seq<u8>)>,
    (),
> {
    match credentials {
        Ok(credentials) => Ok(credentials_view(credentials)),
        Err(_) => Err(()),
    }
}

/// Optional parameters as a plain value.
pub open spec fn parameter_view(parameter: Option<AccessTokenParameter>) -> Option<
    AccessTokenView,
> {
    match parameter {
        Some(parameter) => Some(parameter@),
        None => None,
    }
}

impl GrantFlow {
    /// The credentials that belong to what the transport made of the
    /// `Authorization` header. No header means no credentials. A header that
    /// the transport could not read, or that does not hold `Basic`
    /// credentials, is refused.
    pub open spec fn header_credentials(header: Result<Option<Seq<char>>, ()>) -> Result<
        Option<(Seq<char>, Seq<u8>)>,
        (),
    > {
        match header {
            Ok(None) => Ok(None),
            Ok(Some(value)) => match basic_credentials(value) {
                Some(credentials) => Ok(Some(credentials)),
                None => Err(()),
            },
            Err(_) => Err(()),
        }
    }

    /// The parameters that come of credentials and of what the transport
    /// made of the body, or `None` where the body is refused. The
    /// `authorization` is there exactly if the header gave credentials.
    pub open spec fn merged(
        authorization: Option<(Seq<char>, Seq<u8>)>,
        body: Result<Parameters, ()>,
    ) -> Option<AccessTokenView> {
        match body {
            Ok(params) => Some(AccessTokenView::extracted(params).authorized_by(authorization)),
            Err(_) => None,
        }
    }

    /// The parameters of a request with the given header and body, or `None`
    /// where either is refused.
    pub open spec fn valid_params(
        header: Result<Option<Seq<char>>, ()>,
        body: Result<Parameters, ()>,
    ) -> Option<AccessTokenView> {
        match Self::header_credentials(header) {
            Ok(authorization) => Self::merged(authorization, body),
            Err(_) => None,
        }
    }

    /// The parameters that a request with the given header and body is
    /// prepared to: where either is refused, the invalid ones.
    pub open spec fn prepared(
        header: Result<Option<Seq<char>>, ()>,
        body: Result<Parameters, ()>,
    ) -> AccessTokenView {
        match Self::valid_params(header, body) {
            Some(parameter) => parameter,
            None => AccessTokenView::invalid(),
        }
    }

    /// Reads the client credentials out of what the transport made of the
    /// `Authorization` header.
    pub fn credentials(header: Result<Option<String>, ()>) -> (credentials: Result<
        Option<(String, Vec<u8>)>,
        (),
    >)
        ensures
            credentials_result(credentials) == Self::header_credentials(header_view(header)),
    {
        match header {
            Ok(None) => Ok(None),
            Ok(Some(value)) => match parse_basic(value.as_str()) {
                Some(credentials) => Ok(Some(credentials)),
                None => Err(()),
            },
            Err(_) => Err(()),
        }
    }

    /// Merges the credentials of the header with what the transport made of
    /// the body.
    pub fn merge(
        authorization: Option<(String, Vec<u8>)>,
        body: Result<ParameterMap, ()>,
    ) -> (parameter: Option<AccessTokenParameter>)
        ensures
            parameter_view(parameter) == Self::merged(
                credentials_view(authorization),
                transport_view(body),
            ),
    {
        match body {
            Ok(params) => Some(extract_access_token(&params).authorized_by(authorization)),
            Err(_) => None,
        }
    }

    /// Reads header and body of the request, the header first; the body is
    /// not asked for where the header is refused. `None` stands for a request
    /// that is refused as a whole.
    pub fn create_valid_params<W: WebRequest>(req: &mut W) -> (parameter: Option<
        AccessTokenParameter,
    >)
        ensures
            exists|asked: &mut W, header: Result<Option<String>, ()>|
                *asked == *old(req) && #[trigger] call_ensures(W::authheader, (asked,), header)
                    && match Self::header_credentials(header_view(header)) {
                    Err(_) => parameter is None && *final(req) == *final(asked),
                    Ok(authorization) => exists|again: &mut W, body: Result<ParameterMap, ()>|
                        *again == *final(asked) && *final(req) == *final(again)
                            && #[trigger] call_ensures(W::urlbody, (again,), body)
                            && parameter_view(parameter) == Self::merged(
                            authorization,
                            transport_view(body),
                        ),
                },
    {
        let header = req.authheader();
        let authorization = match Self::credentials(header) {
            Ok(authorization) => authorization,
            Err(_) => {
                return None;
            },
        };
        let body = req.urlbody();
        Self::merge(authorization, body)
    }

    /// Reads the request into parameters for the issuer, as
    /// [`Self::create_valid_params`] does. This never fails: a request that
    /// is refused gives the invalid parameters, which the issuer then
    /// rejects.
    pub fn prepare<W: WebRequest>(req: &mut W) -> (prepared: Result<PreparedGrant<W>, W::Error>)
        ensures
            prepared matches Ok(prepared) && exists|
                asked: &mut W,
                header: Result<Option<String>, ()>,
            |
                *asked == *old(req) && #[trigger] call_ensures(W::authheader, (asked,), header)
                    && match Self::header_credentials(header_view(header)) {
                    Err(_) => prepared.parameter()@ == AccessTokenView::invalid() && *final(req)
                        == *final(asked),
                    Ok(authorization) => exists|again: &mut W, body: Result<ParameterMap, ()>|
                        *again == *final(asked) && *final(req) == *final(again)
                            && #[trigger] call_ensures(W::urlbody, (again,), body)
                            && prepared.parameter()@ == Self::prepared(
                            header_view(header),
                            transport_view(body),
                        ),
                },
    {
        let params = match Self::create_valid_params(req) {
            Some(params) => params,
            None => AccessTokenParameter::invalid(),
        };
        Ok(PreparedGrant { params, req: PhantomData })
    }

    /// Whether `made` answers the issuer's `verdict`: a token as a JSON
    /// document; a request at fault as the error's JSON with status 400; a
    /// client that did not prove itself as the error's JSON with status 401
    /// and a challenge for the scheme. Where the host fails to build the
    /// response, `made` is that failure.
    pub open spec fn answered<R: WebResponse>(
        verdict: Result<TokenResponse, IssuerError>,
        made: Result<R, R::Error>,
    ) -> bool {
        match verdict {
            Ok(token) => json_made(token@, made),
            Err(IssuerError::Invalid(error)) => client_error_made(error@, made),
            Err(IssuerError::Unauthorized(error, scheme)) => unauthorized_made(
                error@,
                scheme@,
                made,
            ),
        }
    }

    /// The shape of the response that answers the issuer's `verdict`.
    pub open spec fn response_shape(verdict: Result<TokenResponse, IssuerError>) -> ResponseShape {
        match verdict {
            Ok(token) => ResponseShape::json(token@),
            Err(IssuerError::Invalid(error)) => ResponseShape::json(error@).as_client_error(),
            Err(IssuerError::Unauthorized(error, scheme)) => ResponseShape::json(
                error@,
            ).as_unauthorized().with_authorization(scheme@),
        }
    }

    /// Where the host could build it, the answer to a verdict has the shape
    /// that belongs to the verdict, whatever the host makes its responses
    /// of: the JSON body in each case; success for an issued token, a client
    /// error for a request at fault, and an unauthorized status with the
    /// challenge for a client that did not prove itself.
    pub proof fn lemma_answered_shape<R: WebResponse>(
        verdict: Result<TokenResponse, IssuerError>,
        made: Result<R, R::Error>,
    )
        requires
            Self::answered(verdict, made),
        ensures
            made matches Ok(response) ==> response.shape() == Self::response_shape(verdict),
    {
        match verdict {
            Ok(token) => lemma_json_shape(token@, made),
            Err(IssuerError::Invalid(error)) => lemma_client_error_shape(error@, made),
            Err(IssuerError::Unauthorized(error, scheme)) => lemma_unauthorized_shape(
                error@,
                scheme@,
                made,
            ),
        }
    }

    /// Builds the response to the issuer's verdict.
    pub fn respond<R: WebResponse>(verdict: Result<TokenResponse, IssuerError>) -> (made: Result<
        R,
        R::Error,
    >)
        ensures
            Self::answered(verdict, made),
    {
        match verdict {
            Ok(token) => R::json(token.to_json()),
            Err(IssuerError::Invalid(error)) => {
                let first = R::json(error.as_str());
                assert(json_made(error@, first));
                match first {
                    Ok(plain) => plain.as_client_error(),
                    Err(failure) => Err(failure),
                }
            },
            Err(IssuerError::Unauthorized(error, scheme)) => {
                let first = R::json(error.as_str());
                assert(json_made(error@, first));
                match first {
                    Ok(plain) => {
                        let second = plain.as_unauthorized();
                        match second {
                            Ok(marked) => {
                                let made = marked.with_authorization(scheme.as_str());
                                assert(challenge_made(marked, scheme@, made));
                                assert(challenged(first, scheme@, made));
                                made
                            },
                            Err(failure) => {
                                assert(challenged(first, scheme@, Err::<R, R::Error>(failure)));
                                Err(failure)
                            },
                        }
                    },
                    Err(failure) => Err(failure),
                }
            },
        }
    }

    /// Asks the issuer to redeem the code, once, with the prepared
    /// parameters, and answers its verdict.
    pub fn handle<Req: WebRequest, I: IssuerRef>(issuer: I, prepared: PreparedGrant<Req>) -> (made:
        Result<Req::Response, Req::Error>)
        ensures
            exists|verdict: Result<TokenResponse, IssuerError>| #[trigger]
                call_ensures(I::use_code, (issuer, &prepared.parameter()), verdict)
                    && Self::answered(verdict, made),
    {
        let PreparedGrant { params, .. } = prepared;
        let verdict = issuer.use_code(&params);
        Self::respond(verdict)
    }
}

} // verus!
