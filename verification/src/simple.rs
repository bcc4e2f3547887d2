//! Simple Application
//!
//! Run the application with a single handler: every request, whatever its
//! path, goes to the one [Handler] a [SimpleApp] is built around. For an
//! application with more than one page, see
//! [RoutedApp](crate::routed::RoutedApp).

use vstd::prelude::*;

use crate::application::Application;
use crate::error::GemError;
use crate::request::Request;
use crate::response::Response;

verus! {

/// A handler for a SimpleApp: handles any request.
///
/// Takes a gemini request and returns a gemini response. Returning an error
/// should be avoided: the driver logs it and the client sees the error's
/// canonical response.
pub trait Handler: Sized {
    /// Handle any request.
    fn handle(&self, request: Request) -> Result<Response, GemError>;
}

/// A single page application
///
/// This application sends all requests to the provided handler. The only
/// setup required is initialization: once the app is created, a protocol
/// driver can run it.
pub struct SimpleApp<T: Handler> {
    /// The handler every request goes to.
    pub handler: T,
}

impl<T: Handler> SimpleApp<T> {
    /// Create a new simple app around its one handler.
    pub fn new(handler: T) -> (r: Self)
        ensures
            r.handler == handler,
    {
        Self { handler }
    }
}

impl<T: Handler> Application for SimpleApp<T> {
    /// Hand the request, whatever its path, to the one handler.
    fn handle_request(&self, request: Request) -> Result<Response, GemError> {
        self.handler.handle(request)
    }
}

} // verus!
