//! What holds of parameter extraction for every request.

use crate::basic::{base64_decoded, basic_credentials, has_basic_prefix, COLON};
use crate::grant::GrantFlow;
use crate::params::ParameterMap;
use crate::request::{
    header_view, single_value, transport_view, AccessTokenParameter, AccessTokenView,
    AuthorizationParameter, AuthorizationView, GuardParameter, GuardView, Parameters,
};
use vstd::prelude::*;

verus! {

/// Preparing is a function of what the transport decoded: two queries that
/// hold the same parameters are read into the same view, however each is
/// laid out in memory.
pub proof fn law_authorization_parameters_repeatable(
    first_query: Result<ParameterMap, ()>,
    first: AuthorizationParameter,
    second_query: Result<ParameterMap, ()>,
    second: AuthorizationParameter,
)
    requires
        transport_view(first_query) == transport_view(second_query),
        first@ == AuthorizationView::decoded(transport_view(first_query)),
        second@ == AuthorizationView::decoded(transport_view(second_query)),
    ensures
        first@ == second@,
{
}

/// Two access token requests with the same header and the same body are
/// read into the same view.
pub proof fn law_access_token_parameters_repeatable(
    first_header: Result<Option<String>, ()>,
    first_body: Result<ParameterMap, ()>,
    first: AccessTokenParameter,
    second_header: Result<Option<String>, ()>,
    second_body: Result<ParameterMap, ()>,
    second: AccessTokenParameter,
)
    requires
        header_view(first_header) == header_view(second_header),
        transport_view(first_body) == transport_view(second_body),
        first@ == GrantFlow::prepared(header_view(first_header), transport_view(first_body)),
        second@ == GrantFlow::prepared(header_view(second_header), transport_view(second_body)),
    ensures
        first@ == second@,
{
}

/// Two guarded requests with the same header are read into the same view.
pub proof fn law_guard_parameters_repeatable(
    first_header: Result<Option<String>, ()>,
    first: GuardParameter,
    second_header: Result<Option<String>, ()>,
    second: GuardParameter,
)
    requires
        header_view(first_header) == header_view(second_header),
        first@ == GuardView::decoded(header_view(first_header)),
        second@ == GuardView::decoded(header_view(second_header)),
    ensures
        first@ == second@,
{
}

/// A key that is given with no value or with several is read as if it were
/// not there, whichever key it is.
pub proof fn law_repeated_key_is_absent(
    params: Parameters,
    key: Seq<char>,
    values: Seq<Seq<char>>,
)
    requires
        values.len() != 1,
    ensures
        forall|other: Seq<char>|
            single_value(params.insert(key, values), other) == single_value(
                params.remove(key),
                other,
            ),
        AuthorizationView::extracted(params.insert(key, values)) == AuthorizationView::extracted(
            params.remove(key),
        ),
        AccessTokenView::extracted(params.insert(key, values)) == AccessTokenView::extracted(
            params.remove(key),
        ),
{
}

/// A key that no flow recognizes does not change what is read.
pub proof fn law_unknown_key_is_ignored(params: Parameters, key: Seq<char>, values: Seq<Seq<char>>)
    requires
        key != "client_id"@,
        key != "scope"@,
        key != "redirect_url"@,
        key != "state"@,
        key != "code"@,
        key != "grant_type"@,
    ensures
        AuthorizationView::extracted(params.insert(key, values)) == AuthorizationView::extracted(
            params,
        ),
        AccessTokenView::extracted(params.insert(key, values)) == AccessTokenView::extracted(
            params,
        ),
{
}

/// A request that could not be read carries no field, and a request
/// carries credentials only where it is valid.
pub proof fn law_invalid_parameters_are_blank(
    query: Result<Parameters, ()>,
    header: Result<Option<Seq<char>>, ()>,
    body: Result<Parameters, ()>,
)
    ensures
        !AuthorizationView::decoded(query).valid ==> AuthorizationView::decoded(query)
            == AuthorizationView::invalid(),
        !GrantFlow::prepared(header, body).valid ==> GrantFlow::prepared(header, body)
            == AccessTokenView::invalid(),
        GrantFlow::prepared(header, body).authorization is Some ==> GrantFlow::prepared(
            header,
            body,
        ).valid,
        !GuardView::decoded(header).valid ==> GuardView::decoded(header) == GuardView::invalid(),
{
}

/// Without an `Authorization` header the request is valid and carries no
/// credentials; what the body gives, a client identifier included, stays.
pub proof fn law_missing_header_is_valid(body: Parameters)
    ensures
        GrantFlow::prepared(Ok(None), Ok(body)) == AccessTokenView::extracted(body),
        GrantFlow::prepared(Ok(None), Ok(body)).valid,
        GrantFlow::prepared(Ok(None), Ok(body)).authorization is None,
{
}

/// A header that gives credentials puts exactly those into the request,
/// beside what the body gives.
pub proof fn law_header_credentials_are_kept(header: Seq<char>, body: Parameters)
    requires
        basic_credentials(header) is Some,
    ensures
        GrantFlow::prepared(Ok(Some(header)), Ok(body)) == AccessTokenView::extracted(
            body,
        ).authorized_by(basic_credentials(header)),
{
}

/// A header is refused where it does not begin with the scheme, where what
/// follows the scheme is not base64, and where what that decodes to holds
/// no colon.
pub proof fn law_malformed_header_is_refused(header: Seq<char>)
    requires
        !has_basic_prefix(header) || base64_decoded(header.skip(6)) is None || (base64_decoded(
            header.skip(6),
        ) matches Some(decoded) && !decoded.contains(COLON)),
    ensures
        basic_credentials(header) is None,
{
    if has_basic_prefix(header) {
        if let Some(decoded) = base64_decoded(header.skip(6)) {
            decoded.index_of_first_ensures(COLON);
        }
    }
}

/// A header that is refused, or that the transport could not read, makes
/// the whole request invalid, whatever the body holds: no field and no part
/// of the credentials is kept.
pub proof fn law_refused_header_invalidates(
    header: Result<Option<Seq<char>>, ()>,
    body: Result<Parameters, ()>,
)
    requires
        header is Err || (header matches Ok(Some(value)) && basic_credentials(value) is None),
    ensures
        GrantFlow::valid_params(header, body) is None,
        GrantFlow::prepared(header, body) == AccessTokenView::invalid(),
        !GrantFlow::prepared(header, body).valid,
        GrantFlow::prepared(header, body).authorization is None,
{
}

} // verus!
