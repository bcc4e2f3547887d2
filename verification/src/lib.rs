//! # Gemfra: a Gemini CGI framework
//!
//! Gemfra abstracts the boilerplate of a dynamic Gemini capsule: it builds a
//! canonical [request](request::Request) from the key/value pairs a gateway
//! convention supplies, dispatches it to a handler chosen by URL path
//! pattern, and serialises the handler's [response](response::Response) back
//! into the wire format.
//!
//! The crate is organised in two layers. The application layer is how
//! requests are handled: a [routed app](routed::RoutedApp) serves many pages,
//! one [`Route`](routed::Route) each, and a [simple app](simple::SimpleApp)
//! serves every request with one handler. The protocol layer
//! ([protocol]) turns the raw fields of a gateway convention (one-shot CGI
//! environment variables, or SCGI's length-prefixed header block) into a
//! request and a response into wire bytes, so that an application written
//! once runs under either convention.

pub mod application;
pub mod error;
pub mod protocol;
pub mod request;
pub mod response;
pub mod routed;
pub mod router;
pub mod simple;
pub mod strings;
pub mod varmap;
