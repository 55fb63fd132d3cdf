//! The interface through which the core reaches a value provider: a handler
//! turns the body of a decoded request into a response body.

use vstd::prelude::*;

use crate::error::UdpRequestHandlerError;
use crate::request::UdpRequest;

verus! {

/// The family of requests a handler can serve.
#[derive(Debug, Clone, Copy, PartialEq, Eq, Structural)]
pub enum UdpRequestHandlerType {
    Unsupported,
    DataRefReader,
}

/// A registered capability that produces the response body for a request.
///
/// The concrete provider behind an implementation is outside the core: it may
/// answer from the simulation host or from a fixed table. An implementation
/// is free in what it returns, except that a failure is always a read
/// failure: a handler never reports a missing registration.
pub trait UdpRequestHandler: Sized {
    /// The family of requests this handler serves.
    spec fn spec_handler_type(&self) -> UdpRequestHandlerType;

    fn get_handler_type(&self) -> (t: UdpRequestHandlerType)
        ensures
            t == self.spec_handler_type(),
    ;

    /// Produce the response body for `request`, or report that the
    /// identifier in its body could not be read.
    fn handle(&self, request: UdpRequest) -> (r: Result<String, UdpRequestHandlerError>)
        ensures
            r matches Err(e) ==> e is DataRefReadError,
    ;
}

} // verus!
