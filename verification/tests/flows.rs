use oauth_frontend::access::AccessFlow;
use oauth_frontend::authorization::AuthorizationFlow;
use oauth_frontend::backend::{
    AccessError, ClientParameter, CodeError, CodeRef, ErrorUrl, GuardRef, IssuerError, IssuerRef,
    Negotiated, TokenResponse,
};
use oauth_frontend::error::OAuthError;
use oauth_frontend::grant::GrantFlow;
use oauth_frontend::params::ParameterMap;
use oauth_frontend::request::{AccessTokenParameter, AuthorizationParameter, GuardParameter};
use oauth_frontend::web::{
    Authentication, OwnerAuthorizer, ResponseShape, WebRequest, WebResponse,
};
use std::cell::{Cell, RefCell};
use url::Url;

#[derive(Debug, Clone, PartialEq)]
enum Body {
    Empty,
    Text(String),
    Json(String),
}

#[derive(Debug, Clone, PartialEq)]
struct Response {
    status: u16,
    location: Option<String>,
    body: Body,
    challenge: Option<String>,
}

#[derive(Debug, PartialEq)]
enum HostError {
    OAuth(OAuthError),
    Consent,
}

impl From<OAuthError> for HostError {
    fn from(error: OAuthError) -> Self {
        HostError::OAuth(error)
    }
}

impl WebResponse for Response {
    type Error = HostError;

    fn shape(&self) -> ResponseShape {
        unreachable!()
    }

    fn redirect(url: Url) -> Result<Self, HostError> {
        Ok(Response {
            status: 302,
            location: Some(url.as_str().to_string()),
            body: Body::Empty,
            challenge: None,
        })
    }

    fn text(text: &str) -> Result<Self, HostError> {
        Ok(Response {
            status: 200,
            location: None,
            body: Body::Text(text.to_string()),
            challenge: None,
        })
    }

    fn json(data: &str) -> Result<Self, HostError> {
        Ok(Response {
            status: 200,
            location: None,
            body: Body::Json(data.to_string()),
            challenge: None,
        })
    }

    fn as_client_error(mut self) -> Result<Self, HostError> {
        self.status = 400;
        Ok(self)
    }

    fn as_unauthorized(mut self) -> Result<Self, HostError> {
        self.status = 401;
        Ok(self)
    }

    fn with_authorization(mut self, kind: &str) -> Result<Self, HostError> {
        self.challenge = Some(kind.to_string());
        Ok(self)
    }
}

type Pairs = Vec<(&'static str, Vec<&'static str>)>;

fn mapping(pairs: &Pairs) -> ParameterMap {
    let mut map = ParameterMap::new();
    for (key, values) in pairs {
        map.insert(key.to_string(), values.iter().map(|v| v.to_string()).collect());
    }
    map
}

struct Request {
    query: Result<Pairs, ()>,
    body: Result<Pairs, ()>,
    header: Result<Option<&'static str>, ()>,
    body_reads: usize,
}

impl Request {
    fn with_query(pairs: Pairs) -> Request {
        Request { query: Ok(pairs), body: Ok(vec![]), header: Ok(None), body_reads: 0 }
    }

    fn with_body(header: Result<Option<&'static str>, ()>, pairs: Pairs) -> Request {
        Request { query: Ok(vec![]), body: Ok(pairs), header, body_reads: 0 }
    }

    fn with_header(header: Result<Option<&'static str>, ()>) -> Request {
        Request { query: Ok(vec![]), body: Ok(vec![]), header, body_reads: 0 }
    }
}

impl WebRequest for Request {
    type Error = HostError;
    type Response = Response;

    fn query(&mut self) -> Result<ParameterMap, ()> {
        match &self.query {
            Ok(pairs) => Ok(mapping(pairs)),
            Err(()) => Err(()),
        }
    }

    fn urlbody(&mut self) -> Result<ParameterMap, ()> {
        self.body_reads += 1;
        match &self.body {
            Ok(pairs) => Ok(mapping(pairs)),
            Err(()) => Err(()),
        }
    }

    fn authheader(&mut self) -> Result<Option<String>, ()> {
        match &self.header {
            Ok(value) => Ok(value.map(|v| v.to_string())),
            Err(()) => Err(()),
        }
    }
}

#[derive(Default)]
struct Calls {
    negotiate: Cell<usize>,
    authorize: Cell<usize>,
    deny: Cell<usize>,
    use_code: Cell<usize>,
    protect: Cell<usize>,
    consent: Cell<usize>,
    owner: RefCell<Option<String>>,
    seen_client: RefCell<Option<Option<String>>>,
    seen_state: RefCell<Option<Option<String>>>,
    seen_valid: Cell<Option<bool>>,
    seen_code: RefCell<Option<Option<String>>>,
    seen_authorization: RefCell<Option<Option<(String, Vec<u8>)>>>,
    seen_token: RefCell<Option<Option<String>>>,
}

fn bump(cell: &Cell<usize>) {
    cell.set(cell.get() + 1);
}

fn client() -> ClientParameter {
    ClientParameter {
        client_id: "app".to_string(),
        scope: None,
        redirect_url: Url::parse("https://c/cb").unwrap(),
        state: Some("xyz".to_string()),
    }
}

enum Verdict {
    Accept,
    Ignore,
    Redirect(&'static str),
}

struct Granter<'a> {
    calls: &'a Calls,
    verdict: Verdict,
    authorize: Result<&'static str, Option<&'static str>>,
    deny: Result<&'static str, Option<&'static str>>,
}

struct Pending<'a> {
    calls: &'a Calls,
    client: ClientParameter,
    authorize: Result<&'static str, Option<&'static str>>,
    deny: Result<&'static str, Option<&'static str>>,
}

fn decision(outcome: Result<&'static str, Option<&'static str>>) -> Result<Url, CodeError> {
    match outcome {
        Ok(url) => Ok(Url::parse(url).unwrap()),
        Err(Some(url)) => Err(CodeError::Redirect(ErrorUrl::new(Url::parse(url).unwrap()))),
        Err(None) => Err(CodeError::Ignore),
    }
}

impl<'a> CodeRef for Granter<'a> {
    type Negotiated = Pending<'a>;

    fn negotiate(self, request: &AuthorizationParameter) -> Result<Pending<'a>, CodeError> {
        bump(&self.calls.negotiate);
        self.calls.seen_valid.set(Some(request.valid()));
        *self.calls.seen_client.borrow_mut() = Some(request.client_id().map(|c| c.to_string()));
        *self.calls.seen_state.borrow_mut() = Some(request.state().map(|c| c.to_string()));
        match self.verdict {
            Verdict::Accept => Ok(Pending {
                calls: self.calls,
                client: client(),
                authorize: self.authorize,
                deny: self.deny,
            }),
            Verdict::Ignore => Err(CodeError::Ignore),
            Verdict::Redirect(url) => {
                Err(CodeError::Redirect(ErrorUrl::new(Url::parse(url).unwrap())))
            }
        }
    }
}

impl<'a> Negotiated for Pending<'a> {
    fn negotiated(&self) -> &ClientParameter {
        &self.client
    }

    fn authorize(self, owner_id: String) -> Result<Url, CodeError> {
        bump(&self.calls.authorize);
        *self.calls.owner.borrow_mut() = Some(owner_id);
        decision(self.authorize)
    }

    fn deny(self) -> Result<Url, CodeError> {
        bump(&self.calls.deny);
        decision(self.deny)
    }
}

fn granter(calls: &Calls, verdict: Verdict) -> Granter<'_> {
    Granter {
        calls,
        verdict,
        authorize: Ok("https://c/cb?code=abc&state=xyz"),
        deny: Ok("https://c/cb?error=access_denied&state=xyz"),
    }
}

struct Consent<'a> {
    calls: &'a Calls,
    answer: Result<Authentication, ()>,
}

impl<'a> OwnerAuthorizer for Consent<'a> {
    type Request = Request;

    fn get_owner_authorization(
        &self,
        _request: &mut Request,
        client: &ClientParameter,
    ) -> Result<(Authentication, Response), HostError> {
        bump(&self.calls.consent);
        assert_eq!(client.client_id, "app");
        match &self.answer {
            Ok(answer) => Ok((answer.clone(), Response::text("consent page").unwrap())),
            Err(()) => Err(HostError::Consent),
        }
    }
}

struct Issuer<'a> {
    calls: &'a Calls,
    verdict: Result<&'static str, IssuerError>,
}

impl<'a> IssuerRef for Issuer<'a> {
    fn use_code(self, request: &AccessTokenParameter) -> Result<TokenResponse, IssuerError> {
        bump(&self.calls.use_code);
        self.calls.seen_valid.set(Some(request.valid()));
        *self.calls.seen_code.borrow_mut() = Some(request.code().map(|c| c.to_string()));
        *self.calls.seen_authorization.borrow_mut() =
            Some(request.authorization().map(|(c, s)| (c.to_string(), s.to_vec())));
        match self.verdict {
            Ok(json) => Ok(TokenResponse::new(json.to_string())),
            Err(error) => Err(error),
        }
    }
}

struct Guard<'a> {
    calls: &'a Calls,
    verdict: Result<(), AccessError>,
}

impl<'a> GuardRef for Guard<'a> {
    fn protect(self, request: &GuardParameter) -> Result<(), AccessError> {
        bump(&self.calls.protect);
        self.calls.seen_valid.set(Some(request.valid()));
        *self.calls.seen_token.borrow_mut() = Some(request.token().map(|t| t.to_string()));
        self.verdict
    }
}

fn authorization_query() -> Pairs {
    vec![
        ("client_id", vec!["app"]),
        ("redirect_url", vec!["https://c/cb"]),
        ("state", vec!["xyz"]),
    ]
}

fn grant_body() -> Pairs {
    vec![
        ("grant_type", vec!["authorization_code"]),
        ("code", vec!["abc"]),
        ("redirect_url", vec!["https://c/cb"]),
    ]
}

const TOKEN_JSON: &str = "{\"access_token\":\"t\",\"token_type\":\"bearer\"}";
const ERROR_JSON: &str = "{\"error\":\"invalid_client\"}";

#[test]
fn happy_authorization() {
    let calls = Calls::default();
    let mut request = Request::with_query(authorization_query());
    let prepared = AuthorizationFlow::prepare(&mut request).unwrap();
    let consent =
        Consent { calls: &calls, answer: Ok(Authentication::Authenticated("alice".to_string())) };
    let made = AuthorizationFlow::handle(granter(&calls, Verdict::Accept), prepared, &consent);
    assert_eq!(
        made,
        Ok(Response {
            status: 302,
            location: Some("https://c/cb?code=abc&state=xyz".to_string()),
            body: Body::Empty,
            challenge: None,
        })
    );
    assert_eq!(calls.owner.borrow().as_deref(), Some("alice"));
    assert_eq!(calls.seen_valid.get(), Some(true));
    assert_eq!(*calls.seen_client.borrow(), Some(Some("app".to_string())));
    assert_eq!(*calls.seen_state.borrow(), Some(Some("xyz".to_string())));
}

#[test]
fn owner_denial() {
    let calls = Calls::default();
    let mut request = Request::with_query(authorization_query());
    let prepared = AuthorizationFlow::prepare(&mut request).unwrap();
    let consent = Consent { calls: &calls, answer: Ok(Authentication::Failed) };
    let made = AuthorizationFlow::handle(granter(&calls, Verdict::Accept), prepared, &consent);
    let made = made.unwrap();
    assert_eq!(made.status, 302);
    assert_eq!(made.location.as_deref(), Some("https://c/cb?error=access_denied&state=xyz"));
    assert_eq!(calls.deny.get(), 1);
    assert_eq!(calls.authorize.get(), 0);
}

#[test]
fn unknown_client() {
    let calls = Calls::default();
    let mut request = Request::with_query(vec![
        ("redirect_url", vec!["https://c/cb"]),
        ("state", vec!["xyz"]),
    ]);
    let prepared = AuthorizationFlow::prepare(&mut request).unwrap();
    let consent = Consent { calls: &calls, answer: Ok(Authentication::Failed) };
    let made = AuthorizationFlow::handle(granter(&calls, Verdict::Ignore), prepared, &consent);
    assert_eq!(made, Err(HostError::OAuth(OAuthError::InternalCodeError())));
    assert_eq!(*calls.seen_client.borrow(), Some(None));
    assert_eq!(calls.consent.get(), 0);
    assert_eq!(calls.deny.get(), 0);
    assert_eq!(calls.authorize.get(), 0);
}

#[test]
fn grant_with_basic_auth() {
    let calls = Calls::default();
    let mut request = Request::with_body(Ok(Some("Basic YXBwOnMzY3JldA==")), grant_body());
    let prepared = GrantFlow::prepare(&mut request).unwrap();
    let made = GrantFlow::handle(Issuer { calls: &calls, verdict: Ok(TOKEN_JSON) }, prepared);
    assert_eq!(
        made,
        Ok(Response {
            status: 200,
            location: None,
            body: Body::Json(TOKEN_JSON.to_string()),
            challenge: None,
        })
    );
    assert_eq!(calls.seen_valid.get(), Some(true));
    assert_eq!(*calls.seen_code.borrow(), Some(Some("abc".to_string())));
    assert_eq!(
        *calls.seen_authorization.borrow(),
        Some(Some(("app".to_string(), b"s3cret".to_vec())))
    );
}

#[test]
fn grant_with_bad_client_secret() {
    let calls = Calls::default();
    let mut request = Request::with_body(Ok(Some("Basic YXBwOnMzY3JldA==")), grant_body());
    let prepared = GrantFlow::prepare(&mut request).unwrap();
    let verdict = Err(IssuerError::Unauthorized(
        ERROR_JSON.to_string(),
        "Basic realm=\"oauth\"".to_string(),
    ));
    let made = GrantFlow::handle(Issuer { calls: &calls, verdict }, prepared);
    assert_eq!(
        made,
        Ok(Response {
            status: 401,
            location: None,
            body: Body::Json(ERROR_JSON.to_string()),
            challenge: Some("Basic realm=\"oauth\"".to_string()),
        })
    );
}

#[test]
fn grant_with_malformed_code() {
    let calls = Calls::default();
    let mut request = Request::with_body(Ok(Some("Basic YXBwOnMzY3JldA==")), grant_body());
    let prepared = GrantFlow::prepare(&mut request).unwrap();
    let verdict = Err(IssuerError::Invalid("{\"error\":\"invalid_grant\"}".to_string()));
    let made = GrantFlow::handle(Issuer { calls: &calls, verdict }, prepared);
    assert_eq!(
        made,
        Ok(Response {
            status: 400,
            location: None,
            body: Body::Json("{\"error\":\"invalid_grant\"}".to_string()),
            challenge: None,
        })
    );
}

#[test]
fn resource_access_with_missing_token() {
    let calls = Calls::default();
    let mut request = Request::with_header(Ok(None));
    let prepared = AccessFlow::prepare(&mut request).unwrap();
    let result = AccessFlow::handle(
        Guard { calls: &calls, verdict: Err(AccessError::AccessDenied) },
        prepared,
    );
    assert_eq!(result, Err(HostError::OAuth(OAuthError::AccessDenied)));
    assert_eq!(calls.seen_valid.get(), Some(true));
    assert_eq!(*calls.seen_token.borrow(), Some(None));
}

#[test]
fn resource_access_is_granted() {
    let calls = Calls::default();
    let mut request = Request::with_header(Ok(Some("Bearer abc")));
    let prepared = AccessFlow::prepare(&mut request).unwrap();
    assert_eq!(prepared.params().token(), Some("Bearer abc"));
    let result: Result<(), HostError> =
        AccessFlow::handle(Guard { calls: &calls, verdict: Ok(()) }, prepared);
    assert_eq!(result, Ok(()));
    assert_eq!(*calls.seen_token.borrow(), Some(Some("Bearer abc".to_string())));
    assert_eq!(calls.protect.get(), 1);
}

#[test]
fn malformed_resource_request_is_internal() {
    let calls = Calls::default();
    let mut request = Request::with_header(Err(()));
    let prepared = AccessFlow::prepare(&mut request).unwrap();
    assert!(!prepared.params().valid());
    assert_eq!(prepared.params().token(), None);
    let result = AccessFlow::handle(
        Guard { calls: &calls, verdict: Err(AccessError::InvalidRequest) },
        prepared,
    );
    assert_eq!(result, Err(HostError::OAuth(OAuthError::InternalAccessError())));
    assert_eq!(calls.seen_valid.get(), Some(false));
}

#[test]
fn guard_refusals_translate() {
    assert_eq!(
        AccessFlow::translate(AccessError::InvalidRequest),
        OAuthError::InternalAccessError()
    );
    assert_eq!(AccessFlow::translate(AccessError::AccessDenied), OAuthError::AccessDenied);
    assert_eq!(AccessFlow::surface::<HostError>(Ok(())), Ok(()));
    assert_eq!(
        AccessFlow::surface::<HostError>(Err(AccessError::AccessDenied)),
        Err(HostError::OAuth(OAuthError::AccessDenied))
    );
}

#[test]
fn in_progress_passes_the_consent_page() {
    let calls = Calls::default();
    let mut request = Request::with_query(authorization_query());
    let prepared = AuthorizationFlow::prepare(&mut request).unwrap();
    let consent = Consent { calls: &calls, answer: Ok(Authentication::InProgress) };
    let made = AuthorizationFlow::handle(granter(&calls, Verdict::Accept), prepared, &consent);
    assert_eq!(made, Response::text("consent page"));
    assert_eq!(calls.negotiate.get(), 1);
    assert_eq!(calls.consent.get(), 1);
    assert_eq!(calls.deny.get(), 0);
    assert_eq!(calls.authorize.get(), 0);
}

#[test]
fn consent_failure_is_passed_on() {
    let calls = Calls::default();
    let mut request = Request::with_query(authorization_query());
    let prepared = AuthorizationFlow::prepare(&mut request).unwrap();
    let consent = Consent { calls: &calls, answer: Err(()) };
    let made = AuthorizationFlow::handle(granter(&calls, Verdict::Accept), prepared, &consent);
    assert_eq!(made, Err(HostError::Consent));
    assert_eq!(calls.deny.get(), 0);
    assert_eq!(calls.authorize.get(), 0);
}

#[test]
fn each_backend_method_is_called_at_most_once() {
    let calls = Calls::default();
    let mut request = Request::with_query(authorization_query());
    let prepared = AuthorizationFlow::prepare(&mut request).unwrap();
    let consent =
        Consent { calls: &calls, answer: Ok(Authentication::Authenticated("alice".to_string())) };
    let _ = AuthorizationFlow::handle(granter(&calls, Verdict::Accept), prepared, &consent);
    assert_eq!(calls.negotiate.get(), 1);
    assert_eq!(calls.consent.get(), 1);
    assert_eq!(calls.authorize.get(), 1);
    assert_eq!(calls.deny.get(), 0);

    let calls = Calls::default();
    let mut request = Request::with_body(Ok(None), grant_body());
    let prepared = GrantFlow::prepare(&mut request).unwrap();
    let _ = GrantFlow::handle(Issuer { calls: &calls, verdict: Ok(TOKEN_JSON) }, prepared);
    assert_eq!(calls.use_code.get(), 1);
}

#[test]
fn negotiation_redirect_keeps_the_target() {
    let calls = Calls::default();
    let mut request = Request::with_query(authorization_query());
    let prepared = AuthorizationFlow::prepare(&mut request).unwrap();
    let consent = Consent { calls: &calls, answer: Ok(Authentication::Failed) };
    let target = "https://c/cb?error=invalid_scope&error_description=no%20such%20scope&state=xyz";
    let made =
        AuthorizationFlow::handle(granter(&calls, Verdict::Redirect(target)), prepared, &consent);
    let made = made.unwrap();
    assert_eq!(made.status, 302);
    assert_eq!(made.location.as_deref(), Some(target));
    assert_eq!(calls.consent.get(), 0);
}

#[test]
fn refusal_after_consent_is_dispatched_alike() {
    let calls = Calls::default();
    let mut request = Request::with_query(authorization_query());
    let prepared = AuthorizationFlow::prepare(&mut request).unwrap();
    let consent =
        Consent { calls: &calls, answer: Ok(Authentication::Authenticated("alice".to_string())) };
    let mut backend = granter(&calls, Verdict::Accept);
    backend.authorize = Err(Some("https://c/cb?error=server_error"));
    let made = AuthorizationFlow::handle(backend, prepared, &consent).unwrap();
    assert_eq!(made.location.as_deref(), Some("https://c/cb?error=server_error"));

    let calls = Calls::default();
    let mut request = Request::with_query(authorization_query());
    let prepared = AuthorizationFlow::prepare(&mut request).unwrap();
    let consent = Consent { calls: &calls, answer: Ok(Authentication::Failed) };
    let mut backend = granter(&calls, Verdict::Accept);
    backend.deny = Err(None);
    let made = AuthorizationFlow::handle(backend, prepared, &consent);
    assert_eq!(made, Err(HostError::OAuth(OAuthError::InternalCodeError())));
}

#[test]
fn refuse_and_conclude_answer_each_verdict() {
    let made: Result<Response, HostError> = AuthorizationFlow::refuse(CodeError::Ignore);
    assert_eq!(made, Err(HostError::OAuth(OAuthError::InternalCodeError())));
    let target = Url::parse("https://c/cb?error=invalid_request").unwrap();
    let made: Result<Response, HostError> =
        AuthorizationFlow::refuse(CodeError::Redirect(ErrorUrl::new(target.clone())));
    assert_eq!(made, Response::redirect(target.clone()));
    let made: Result<Response, HostError> = AuthorizationFlow::conclude(Ok(target.clone()));
    assert_eq!(made.unwrap().location.as_deref(), Some("https://c/cb?error=invalid_request"));
    let made: Result<Response, HostError> = AuthorizationFlow::conclude(Err(CodeError::Ignore));
    assert_eq!(made, Err(HostError::OAuth(OAuthError::InternalCodeError())));
}

#[test]
fn respond_sets_the_status_before_the_header() {
    let verdict =
        Err(IssuerError::Unauthorized(ERROR_JSON.to_string(), "Basic realm=\"oauth\"".to_string()));
    let made: Response = GrantFlow::respond(verdict).unwrap();
    assert_eq!(made.status, 401);
    assert_eq!(made.challenge.as_deref(), Some("Basic realm=\"oauth\""));
    assert_eq!(made.body, Body::Json(ERROR_JSON.to_string()));
    let made: Response =
        GrantFlow::respond(Ok(TokenResponse::new(TOKEN_JSON.to_string()))).unwrap();
    assert_eq!(made.status, 200);
    assert_eq!(made.challenge, None);
}

#[test]
fn prepare_is_repeatable() {
    let mut request = Request::with_query(authorization_query());
    let first = {
        let prepared = AuthorizationFlow::prepare(&mut request).unwrap();
        let p = prepared.params();
        (
            p.valid(),
            p.client_id().map(str::to_string),
            p.scope().map(str::to_string),
            p.redirect_url().map(str::to_string),
            p.state().map(str::to_string),
        )
    };
    let second = {
        let prepared = AuthorizationFlow::prepare(&mut request).unwrap();
        let p = prepared.params();
        (
            p.valid(),
            p.client_id().map(str::to_string),
            p.scope().map(str::to_string),
            p.redirect_url().map(str::to_string),
            p.state().map(str::to_string),
        )
    };
    assert_eq!(first, second);
    assert_eq!(
        first,
        (
            true,
            Some("app".to_string()),
            None,
            Some("https://c/cb".to_string()),
            Some("xyz".to_string())
        )
    );
}

#[test]
fn malformed_query_prepares_invalid_parameters() {
    let mut request = Request::with_query(vec![]);
    request.query = Err(());
    let prepared = AuthorizationFlow::prepare(&mut request).unwrap();
    let p = prepared.params();
    assert!(!p.valid());
    assert_eq!(p.client_id(), None);
    assert_eq!(p.scope(), None);
    assert_eq!(p.redirect_url(), None);
    assert_eq!(p.state(), None);
}

#[test]
fn empty_query_is_valid_and_blank() {
    let mut request = Request::with_query(vec![]);
    let prepared = AuthorizationFlow::prepare(&mut request).unwrap();
    let p = prepared.params();
    assert!(p.valid());
    assert_eq!(p.client_id(), None);
    assert_eq!(p.state(), None);
}

#[test]
fn missing_header_leaves_the_request_valid() {
    let mut request = Request::with_body(Ok(None), vec![("client_id", vec!["app"])]);
    let prepared = GrantFlow::prepare(&mut request).unwrap();
    let p = prepared.params();
    assert!(p.valid());
    assert_eq!(p.authorization(), None);
    assert_eq!(p.client_id(), Some("app"));
}

#[test]
fn malformed_header_invalidates_the_request() {
    for header in [
        Ok(Some("Bearer YXBwOnMzY3JldA==")),
        Ok(Some("basic YXBwOnMzY3JldA==")),
        Ok(Some("Basic YXBwczNjcmV0")),
        Ok(Some("Basic !!!")),
        Ok(Some("Basic")),
        Err(()),
    ] {
        let mut request = Request::with_body(header, grant_body());
        let prepared = GrantFlow::prepare(&mut request).unwrap();
        let p = prepared.params();
        assert!(!p.valid());
        assert_eq!(p.authorization(), None);
        assert_eq!(p.code(), None);
        assert_eq!(p.client_id(), None);
        assert_eq!(p.redirect_url(), None);
        assert_eq!(p.grant_type(), None);
        assert_eq!(request.body_reads, 0);
    }
}

#[test]
fn malformed_body_invalidates_the_request() {
    let mut request = Request::with_body(Ok(Some("Basic YXBwOnMzY3JldA==")), vec![]);
    request.body = Err(());
    assert!(GrantFlow::create_valid_params(&mut request).is_none());
    let prepared = GrantFlow::prepare(&mut request).unwrap();
    assert!(!prepared.params().valid());
    assert_eq!(prepared.params().authorization(), None);
}
