//! The service adapter: a service that speaks `http` 0.2, called with requests of
//! hyper 1.

use http::HeaderMap as HeaderMap0;
use hyper::HeaderMap as HeaderMap1;
use vstd::prelude::*;

use crate::body::{HyperBodyToLegacyStream, LegacyBodyToHyperBody};
use crate::error::ConversionError;
use crate::message::{
    convert_request, convert_response, local_uri, request_converted, response_converted,
    uri_text_0x, Request, Response,
};

verus! {

/// A service that speaks `http` 0.2, offered to hyper 1.
#[derive(Debug, Clone)]
pub struct LegacyTowerServiceAsHyper1Service<S> {
    pub service: S,
}

/// What happens in the course of a call.
#[derive(Debug)]
pub enum CallEvent<B, R, E> {
    /// hyper 1 called with a request.
    Called(Request<HeaderMap1, B>),
    /// The wrapped service answered, with a response or with its error.
    Answered(Result<Response<HeaderMap0, R>, E>),
}

/// What a call does next.
#[derive(Debug)]
pub enum CallAction<B, R, E> {
    /// Call the wrapped service.
    Forward(Request<HeaderMap0, HyperBodyToLegacyStream<B>>),
    /// Give hyper 1 the outcome of the call.
    Return(Result<Response<HeaderMap1, LegacyBodyToHyperBody<R>>, E>),
}

/// `action` is what a call does after `event`. It is an error where a message has
/// no counterpart on the other side.
pub open spec fn call_action<B, R, E>(
    event: CallEvent<B, R, E>,
    action: Result<CallAction<B, R, E>, ConversionError>,
) -> bool {
    match event {
        CallEvent::Called(req) => match action {
            Ok(action) => {
                &&& action matches CallAction::Forward(converted)
                &&& request_converted(req, Ok(converted))
            },
            Err(error) => request_converted(req, Err(error)),
        },
        CallEvent::Answered(Ok(res)) => match action {
            Ok(action) => {
                &&& action matches CallAction::Return(Ok(converted))
                &&& response_converted(res, Ok(converted))
            },
            Err(error) => response_converted(res, Err(error)),
        },
        CallEvent::Answered(Err(error)) => action == Ok::<CallAction<B, R, E>, ConversionError>(
            CallAction::Return(Err(error)),
        ),
    }
}

impl<S> LegacyTowerServiceAsHyper1Service<S> {
    pub fn new(service: S) -> (adapter: Self)
        ensures
            adapter.service == service,
    {
        Self { service }
    }

    /// Decides what a call does after `event`: a request goes to the wrapped
    /// service as a request of `http` 0.2, its response comes back as a response
    /// of hyper 1, and its error comes back as it is.
    pub fn call<B, R, E>(event: CallEvent<B, R, E>) -> (action: Result<
        CallAction<B, R, E>,
        ConversionError,
    >)
        ensures
            call_action(event, action),
            event matches CallEvent::Called(req) ==> local_uri(req.uri@) ==> match action {
                Ok(action) => action matches CallAction::Forward(converted) && converted.uri@
                    == req.uri@,
                Err(error) => error != ConversionError::Uri,
            },
            event matches CallEvent::Called(req) ==> action matches Ok(action) ==> {
                &&& action matches CallAction::Forward(converted)
                &&& converted.method@ == req.method@
                &&& uri_text_0x(req.uri@) == Some(converted.uri@)
                &&& req.version is Http3 || req.version is Unknown ==> converted.version is Http11
                &&& !(req.version is Http3 || req.version is Unknown) ==> converted.version
                    == req.version
                &&& converted.body.body == req.body
            },
            event matches CallEvent::Answered(Ok(res)) ==> action matches Ok(action) ==> {
                &&& action matches CallAction::Return(Ok(converted))
                &&& converted.status == res.status
                &&& res.version is Http3 || res.version is Unknown ==> converted.version is Http11
                &&& !(res.version is Http3 || res.version is Unknown) ==> converted.version
                    == res.version
                &&& converted.body.body == res.body
            },
    {
        match event {
            CallEvent::Called(req) => match convert_request(req) {
                Ok(converted) => Ok(CallAction::Forward(converted)),
                Err(error) => Err(error),
            },
            CallEvent::Answered(Ok(res)) => match convert_response(res) {
                Ok(converted) => Ok(CallAction::Return(Ok(converted))),
                Err(error) => Err(error),
            },
            CallEvent::Answered(Err(error)) => Ok(CallAction::Return(Err(error))),
        }
    }
}

} // verus!
