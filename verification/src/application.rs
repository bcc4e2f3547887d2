//! Base Application
//!
//! All applications implement [Application]. The protocol layer drives any
//! application the same way: build a [Request](crate::request::Request),
//! hand it to [handle_request](Application::handle_request), and serialise
//! the [Response](crate::response::Response) that comes back. This makes it
//! easy to change the protocol an application runs under without changing
//! the application.

use vstd::prelude::*;

use crate::error::GemError;
use crate::request::Request;
use crate::response::Response;

verus! {

/// Base Application
///
/// Process an incoming request into a response. On a failure there are
/// several options:
///
/// 1. Return a [GemError]: it is converted into the appropriate error
///    response ([to_response](GemError::to_response)).
/// 2. Return the response that the client should see.
pub trait Application: Sized {
    /// Process an incoming request.
    fn handle_request(&self, request: Request) -> Result<Response, GemError>;
}

} // verus!
