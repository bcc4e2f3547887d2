//! Routed Application
//!
//! Use paths to serve multiple pages. Create a [RoutedApp], then register
//! the [Route]s that the application handles. Each route declares the
//! endpoint pattern it serves; at request time the
//! [router](crate::router::Router) resolves the request path to the most
//! specific matching pattern and the route's handler runs with the bound
//! path parameters.
//!
//! An application with routes of different shapes registers them as the
//! variants of one closed handler type implementing [Route].

use vstd::prelude::*;

use crate::application::Application;
use crate::error::GemError;
use crate::request::Request;
use crate::response::Response;
use crate::router::path_segs;
use crate::router::seg_match;
use crate::router::RouteMatch;
use crate::router::Router;
use crate::router::SegView;
use crate::varmap::VarMap;

verus! {

/// A handler for one endpoint.
///
/// The endpoint pattern can have four kinds of segments:
/// - __literals__: `/a/b`;
/// - __params__: `/a/:b`;
/// - __named wildcards__: `/a/*b`;
/// - __unnamed wildcards__: `/a/*`.
///
/// The values matched by params and named wildcards are handed to
/// [handle](Route::handle) as its params argument. A pattern should not
/// declare the same name twice: which value such a name ends up bound to is
/// unspecified.
pub trait Route: Sized {
    /// The endpoint pattern this route handles.
    fn endpoint(&self) -> &str;

    /// Handle a request for the route.
    ///
    /// Takes a gemini request and returns a gemini response. Returning an
    /// error should be avoided: the driver logs it and the client sees the
    /// error's canonical response.
    fn handle(&self, params: &VarMap, request: Request) -> Result<Response, GemError>;
}

/// Whether any registered route's pattern matches a path.
pub open spec fn route_found<T>(routes: Seq<(Seq<SegView>, T)>, path: Seq<char>) -> bool {
    exists|i: int| 0 <= i < routes.len() && seg_match((#[trigger] routes[i]).0, path_segs(path))
}

/// An application that can have multiple endpoints
///
/// Endpoints are registered using [register](RoutedApp::register), each one
/// a different [Route]. Once the app is set up, a protocol driver can run
/// it; the registration-time table is read-only from then on, so concurrent
/// requests share it freely.
pub struct RoutedApp<T: Route> {
    router: Router<T>,
}

impl<T: Route> View for RoutedApp<T> {
    type V = Seq<(Seq<SegView>, T)>;

    closed spec fn view(&self) -> Seq<(Seq<SegView>, T)> {
        self.router@
    }
}

impl<T: Route> RoutedApp<T> {
    /// Create a new routed capsule
    pub fn new() -> (r: Self)
        ensures
            r@ =~= Seq::<(Seq<SegView>, T)>::empty(),
    {
        Self { router: Router::new() }
    }

    /// Register a route to the app under the endpoint pattern it declares.
    pub fn register(&mut self, route: T)
        ensures
            final(self)@.len() == old(self)@.len() + 1,
            final(self)@[old(self)@.len() as int].1 == route,
            forall|i: int| 0 <= i < old(self)@.len() ==> final(self)@[i] == old(self)@[i],
    {
        let endpoint: String = route.endpoint().to_owned();
        self.router.add(endpoint.as_str(), route);
    }
}

impl<T: Route> Application for RoutedApp<T> {
    /// Resolve the request path against the registered routes and run the
    /// winning route's handler. A path no route matches is not an error: it
    /// is the canonical not-found response.
    fn handle_request(&self, request: Request) -> (r: Result<Response, GemError>)
        ensures
            !route_found(self@, request.path@) ==> (r matches Ok(resp) && resp.code == 51
                && resp.meta@ == "Path not found"@ && resp.body is None),
    {
        let found: Option<RouteMatch> = self.router.recognize(request.path.as_str());
        match found {
            Some(m) => {
                let handler = self.router.handler_at(m.index);
                handler.handle(&m.params, request)
            },
            None => Ok(Response::not_found("Path not found")),
        }
    }
}

} // verus!
