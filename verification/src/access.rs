//! The request for a guarded resource: the header as it stands goes to the
//! guard, and the guard's refusal is surfaced to the host.

use crate::backend::{AccessError, GuardRef};
use crate::error::OAuthError;
use crate::request::{header_view, GuardParameter, GuardView};
use crate::web::{raised, WebRequest};
use core::marker::PhantomData;
use vstd::prelude::*;

verus! {

/// The request for a guarded resource.
pub struct AccessFlow;

/// The parameters of a request for a guarded resource, ready to be handled.
pub struct PreparedAccess<Req: WebRequest> {
    params: GuardParameter,
    req: PhantomData<Req>,
}

impl<Req: WebRequest> PreparedAccess<Req> {
    /// The parameters that the guard will be asked with.
    pub closed spec fn parameter(self) -> GuardParameter {
        self.params
    }

    /// The parameters that the guard will be asked with.
    pub fn params(&self) -> (params: &GuardParameter)
        ensures
            *params == self.parameter(),
    {
        &self.params
    }
}

impl AccessFlow {
    /// The error that the host is told for a refusal of the guard.
    pub open spec fn translated(error: AccessError) -> OAuthError {
        match error {
            AccessError::InvalidRequest => OAuthError::InternalAccessError(),
            AccessError::AccessDenied => OAuthError::AccessDenied,
        }
    }

    /// Whether `result` surfaces the guard's `verdict`: access where the
    /// guard lets the request through, else the host's form of the error
    /// that the refusal translates to.
    pub open spec fn surfaced<E: From<OAuthError>>(
        verdict: Result<(), AccessError>,
        result: Result<(), E>,
    ) -> bool {
        match verdict {
            Ok(_) => result is Ok,
            Err(error) => result matches Err(failure) && raised(
                Self::translated(error),
                failure,
            ),
        }
    }

    /// Reads the `Authorization` header into parameters for the guard. This
    /// never fails: a header that the transport refuses gives the invalid
    /// parameters.
    pub fn prepare<W: WebRequest>(req: &mut W) -> (prepared: Result<PreparedAccess<W>, W::Error>)
        ensures
            prepared matches Ok(prepared) && exists|
                asked: &mut W,
                header: Result<Option<String>, ()>,
            |
                *asked == *old(req) && *final(req) == *final(asked)
                    && #[trigger] call_ensures(W::authheader, (asked,), header)
                    && prepared.parameter()@ == GuardView::decoded(header_view(header)),
    {
        let header = req.authheader();
        let params = GuardParameter::decode(header);
        Ok(PreparedAccess { params, req: PhantomData })
    }

    /// Translates a refusal of the guard.
    pub fn translate(error: AccessError) -> (translated: OAuthError)
        ensures
            translated == Self::translated(error),
    {
        match error {
            AccessError::InvalidRequest => OAuthError::InternalAccessError(),
            AccessError::AccessDenied => OAuthError::AccessDenied,
        }
    }

    /// Surfaces the guard's verdict to the host.
    pub fn surface<E: From<OAuthError>>(verdict: Result<(), AccessError>) -> (result: Result<
        (),
        E,
    >)
        ensures
            Self::surfaced(verdict, result),
    {
        match verdict {
            Ok(_) => Ok(()),
            Err(error) => Err(E::from(Self::translate(error))),
        }
    }

    /// Asks the guard, once, with the prepared parameters, and surfaces its
    /// verdict.
    pub fn handle<Req: WebRequest, G: GuardRef>(guard: G, prepared: PreparedAccess<Req>) -> (result:
        Result<(), Req::Error>)
        ensures
            exists|verdict: Result<(), AccessError>| #[trigger]
                call_ensures(G::protect, (guard, &prepared.parameter()), verdict)
                    && Self::surfaced(verdict, result),
    {
        let verdict = guard.protect(&prepared.params);
        Self::surface(verdict)
    }
}

} // verus!
