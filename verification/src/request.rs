//! The three request views that the flows hand to the back-end, and how
//! each is read out of what the transport decoded.

use crate::params::ParameterMap;
use vstd::prelude::*;

verus! {

/// A decoded query or body as a plain value.
pub type Parameters = Map<Seq<char>, Seq<Seq<char>>>;

/// An owned optional text as a plain value.
pub open spec fn text_view(text: Option<String>) -> Option<Seq<char>> {
    match text {
        Some(text) => Some(text@),
        None => None,
    }
}

/// A borrowed optional text as a plain value.
pub open spec fn slice_view(text: Option<&str>) -> Option<Seq<char>> {
    match text {
        Some(text) => Some(text@),
        None => None,
    }
}

/// What the transport made of a query or a body, as a plain value.
pub open spec fn transport_view(decoded: Result<ParameterMap, ()>) -> Result<Parameters, ()> {
    match decoded {
        Ok(params) => Ok(params@),
        Err(_) => Err(()),
    }
}

/// What the transport made of the `Authorization` header, as a plain value.
pub open spec fn header_view(header: Result<Option<String>, ()>) -> Result<
    Option<Seq<char>>,
    (),
> {
    match header {
        Ok(value) => Ok(text_view(value)),
        Err(_) => Err(()),
    }
}

/// The value of a parameter that was given exactly once. A key that is
/// absent, has no value or has several counts as not given.
pub open spec fn single_value(params: Parameters, key: Seq<char>) -> Option<Seq<char>> {
    if params.contains_key(key) && params[key].len() == 1 {
        Some(params[key][0])
    } else {
        None
    }
}

/// Looks up a parameter that was given exactly once.
pub fn single(params: &ParameterMap, key: &str) -> (value: Option<String>)
    ensures
        text_view(value) == single_value(params@, key@),
{
    match params.get(key) {
        Some(values) => {
            if values.len() == 1 {
                Some(values[0].clone())
            } else {
                None
            }
        },
        None => None,
    }
}

fn borrowed(text: &Option<String>) -> (slice: Option<&str>)
    ensures
        slice_view(slice) == text_view(*text),
{
    match text {
        Some(text) => Some(text.as_str()),
        None => None,
    }
}

/// The decoded query of an authorization code request.
pub struct AuthorizationParameter {
    valid: bool,
    client_id: Option<String>,
    scope: Option<String>,
    redirect_url: Option<String>,
    state: Option<String>,
}

/// An [`AuthorizationParameter`] as a plain value.
pub ghost struct AuthorizationView {
    pub valid: bool,
    pub client_id: Option<Seq<char>>,
    pub scope: Option<Seq<char>>,
    pub redirect_url: Option<Seq<char>>,
    pub state: Option<Seq<char>>,
}

impl View for AuthorizationParameter {
    type V = AuthorizationView;

    closed spec fn view(&self) -> AuthorizationView {
        AuthorizationView {
            valid: self.valid,
            client_id: text_view(self.client_id),
            scope: text_view(self.scope),
            redirect_url: text_view(self.redirect_url),
            state: text_view(self.state),
        }
    }
}

impl AuthorizationView {
    /// The view of a request that the transport could not decode: marked
    /// invalid, and without any field.
    pub open spec fn invalid() -> AuthorizationView {
        AuthorizationView {
            valid: false,
            client_id: None,
            scope: None,
            redirect_url: None,
            state: None,
        }
    }

    /// The view of a decoded query: each recognized key that was given
    /// exactly once; every other key is passed over.
    pub open spec fn extracted(params: Parameters) -> AuthorizationView {
        AuthorizationView {
            valid: true,
            client_id: single_value(params, "client_id"@),
            scope: single_value(params, "scope"@),
            redirect_url: single_value(params, "redirect_url"@),
            state: single_value(params, "state"@),
        }
    }

    /// The view that belongs to what the transport made of the query.
    pub open spec fn decoded(query: Result<Parameters, ()>) -> AuthorizationView {
        match query {
            Ok(params) => Self::extracted(params),
            Err(_) => Self::invalid(),
        }
    }
}

/// Reads the parameters of an authorization code request out of a decoded
/// query.
pub fn extract_parameters(params: ParameterMap) -> (extracted: AuthorizationParameter)
    ensures
        extracted@ == AuthorizationView::extracted(params@),
{
    AuthorizationParameter {
        valid: true,
        client_id: single(&params, "client_id"),
        scope: single(&params, "scope"),
        redirect_url: single(&params, "redirect_url"),
        state: single(&params, "state"),
    }
}

impl AuthorizationParameter {
    /// The parameters of a request that could not be decoded.
    pub fn invalid() -> (parameter: Self)
        ensures
            parameter@ == AuthorizationView::invalid(),
    {
        AuthorizationParameter {
            valid: false,
            client_id: None,
            scope: None,
            redirect_url: None,
            state: None,
        }
    }

    /// The parameters that belong to what the transport made of the query:
    /// a malformed query gives the invalid parameters, not an error.
    pub fn decode(query: Result<ParameterMap, ()>) -> (parameter: Self)
        ensures
            parameter@ == AuthorizationView::decoded(transport_view(query)),
    {
        match query {
            Ok(params) => extract_parameters(params),
            Err(_) => Self::invalid(),
        }
    }

    /// Whether the transport could decode the request.
    pub fn valid(&self) -> (valid: bool)
        ensures
            valid == self@.valid,
    {
        self.valid
    }

    /// The identifier of the client that asks.
    pub fn client_id(&self) -> (client_id: Option<&str>)
        ensures
            slice_view(client_id) == self@.client_id,
    {
        borrowed(&self.client_id)
    }

    /// The scope that is asked for.
    pub fn scope(&self) -> (scope: Option<&str>)
        ensures
            slice_view(scope) == self@.scope,
    {
        borrowed(&self.scope)
    }

    /// Where the client wants the owner sent back to.
    pub fn redirect_url(&self) -> (redirect_url: Option<&str>)
        ensures
            slice_view(redirect_url) == self@.redirect_url,
    {
        borrowed(&self.redirect_url)
    }

    /// The client's own state, to be handed back unchanged.
    pub fn state(&self) -> (state: Option<&str>)
        ensures
            slice_view(state) == self@.state,
    {
        borrowed(&self.state)
    }
}

/// The decoded body and header of an access token request.
pub struct AccessTokenParameter {
    valid: bool,
    client_id: Option<String>,
    redirect_url: Option<String>,
    grant_type: Option<String>,
    code: Option<String>,
    authorization: Option<(String, Vec<u8>)>,
}

/// An [`AccessTokenParameter`] as a plain value.
pub ghost struct AccessTokenView {
    pub valid: bool,
    pub client_id: Option<Seq<char>>,
    pub redirect_url: Option<Seq<char>>,
    pub grant_type: Option<Seq<char>>,
    pub code: Option<Seq<char>>,
    pub authorization: Option<(Seq<char>, Seq<u8>)>,
}

impl View for AccessTokenParameter {
    type V = AccessTokenView;

    closed spec fn view(&self) -> AccessTokenView {
        AccessTokenView {
            valid: self.valid,
            client_id: text_view(self.client_id),
            redirect_url: text_view(self.redirect_url),
            grant_type: text_view(self.grant_type),
            code: text_view(self.code),
            authorization: crate::basic::credentials_view(self.authorization),
        }
    }
}

impl AccessTokenView {
    /// The view of a request that was refused as a whole: marked invalid,
    /// without any field and without credentials.
    pub open spec fn invalid() -> AccessTokenView {
        AccessTokenView {
            valid: false,
            client_id: None,
            redirect_url: None,
            grant_type: None,
            code: None,
            authorization: None,
        }
    }

    /// The view of a decoded body: each recognized key that was given
    /// exactly once, and no credentials from a header.
    pub open spec fn extracted(params: Parameters) -> AccessTokenView {
        AccessTokenView {
            valid: true,
            client_id: single_value(params, "client_id"@),
            redirect_url: single_value(params, "redirect_url"@),
            grant_type: single_value(params, "grant_type"@),
            code: single_value(params, "code"@),
            authorization: None,
        }
    }

    /// This view with the credentials of a header in place of its own.
    pub open spec fn authorized_by(
        self,
        authorization: Option<(Seq<char>, Seq<u8>)>,
    ) -> AccessTokenView {
        AccessTokenView { authorization, ..self }
    }
}

/// Reads the parameters of an access token request out of a decoded body.
pub fn extract_access_token(params: &ParameterMap) -> (extracted: AccessTokenParameter)
    ensures
        extracted@ == AccessTokenView::extracted(params@),
{
    AccessTokenParameter {
        valid: true,
        client_id: single(params, "client_id"),
        redirect_url: single(params, "redirect_url"),
        grant_type: single(params, "grant_type"),
        code: single(params, "code"),
        authorization: None,
    }
}

impl AccessTokenParameter {
    /// The parameters of a request that was refused as a whole.
    pub fn invalid() -> (parameter: Self)
        ensures
            parameter@ == AccessTokenView::invalid(),
    {
        AccessTokenParameter {
            valid: false,
            client_id: None,
            redirect_url: None,
            grant_type: None,
            code: None,
            authorization: None,
        }
    }

    /// These parameters with the credentials of a header in place of their
    /// own.
    pub fn authorized_by(self, authorization: Option<(String, Vec<u8>)>) -> (parameter: Self)
        ensures
            parameter@ == self@.authorized_by(crate::basic::credentials_view(authorization)),
    {
        AccessTokenParameter {
            valid: self.valid,
            client_id: self.client_id,
            redirect_url: self.redirect_url,
            grant_type: self.grant_type,
            code: self.code,
            authorization,
        }
    }

    /// Whether the request was accepted as a whole.
    pub fn valid(&self) -> (valid: bool)
        ensures
            valid == self@.valid,
    {
        self.valid
    }

    /// The authorization code that is redeemed.
    pub fn code(&self) -> (code: Option<&str>)
        ensures
            slice_view(code) == self@.code,
    {
        borrowed(&self.code)
    }

    /// The client identifier given in the body.
    pub fn client_id(&self) -> (client_id: Option<&str>)
        ensures
            slice_view(client_id) == self@.client_id,
    {
        borrowed(&self.client_id)
    }

    /// The redirect target that the code was issued for.
    pub fn redirect_url(&self) -> (redirect_url: Option<&str>)
        ensures
            slice_view(redirect_url) == self@.redirect_url,
    {
        borrowed(&self.redirect_url)
    }

    /// The kind of grant that is asked for.
    pub fn grant_type(&self) -> (grant_type: Option<&str>)
        ensures
            slice_view(grant_type) == self@.grant_type,
    {
        borrowed(&self.grant_type)
    }

    /// The client identifier and secret given in the header.
    pub fn authorization(&self) -> (authorization: Option<(&str, &[u8])>)
        ensures
            match authorization {
                Some((client, secret)) => self@.authorization == Some((client@, secret@)),
                None => self@.authorization is None,
            },
    {
        match &self.authorization {
            None => None,
            Some((client, secret)) => Some((client.as_str(), secret.as_slice())),
        }
    }
}

/// The decoded header of a request for a guarded resource.
pub struct GuardParameter {
    valid: bool,
    token: Option<String>,
}

/// A [`GuardParameter`] as a plain value.
pub ghost struct GuardView {
    pub valid: bool,
    pub token: Option<Seq<char>>,
}

impl View for GuardParameter {
    type V = GuardView;

    closed spec fn view(&self) -> GuardView {
        GuardView { valid: self.valid, token: text_view(self.token) }
    }
}

impl GuardView {
    /// The view of a request whose header the transport refused.
    pub open spec fn invalid() -> GuardView {
        GuardView { valid: false, token: None }
    }

    /// The view that belongs to what the transport made of the header: its
    /// value as it stands, scheme and all.
    pub open spec fn decoded(header: Result<Option<Seq<char>>, ()>) -> GuardView {
        match header {
            Ok(token) => GuardView { valid: true, token },
            Err(_) => Self::invalid(),
        }
    }
}

impl GuardParameter {
    /// The parameters of a request whose header the transport refused.
    pub fn invalid() -> (parameter: Self)
        ensures
            parameter@ == GuardView::invalid(),
    {
        GuardParameter { valid: false, token: None }
    }

    /// The parameters that belong to what the transport made of the
    /// `Authorization` header.
    pub fn decode(header: Result<Option<String>, ()>) -> (parameter: Self)
        ensures
            parameter@ == GuardView::decoded(header_view(header)),
    {
        match header {
            Ok(token) => GuardParameter { valid: true, token },
            Err(_) => Self::invalid(),
        }
    }

    /// Whether the transport could read the header.
    pub fn valid(&self) -> (valid: bool)
        ensures
            valid == self@.valid,
    {
        self.valid
    }

    /// The value of the `Authorization` header.
    pub fn token(&self) -> (token: Option<&str>)
        ensures
            slice_view(token) == self@.token,
    {
        borrowed(&self.token)
    }
}

} // verus!
