//! Gemini Response
//!
//! A response has two parts: a header and an optional body. The header is a
//! 2 digit response code and a meta string, rendered on one line as
//! `<code> <meta>\r\n`. A body is only meaningful when the response code is
//! 2X (success). There is a helper constructor for each response type:
//!
//! * __10__ [input][Response::input] Request for input
//! * __11__ [input_sensitive][Response::input_sensitive] Request for sensitive input
//! * __20__ [success][Response::success] Success with a string body
//! * __30__ [redirect][Response::redirect] Redirect to another page
//! * __31__ [redirect_perm][Response::redirect_perm] Permanent redirect
//! * __40__ [error_temp][Response::error_temp] Temporary error
//! * __41__ [unavailable][Response::unavailable] Server unavailable
//! * __42__ [error_cgi][Response::error_cgi] CGI error
//! * __43__ [error_proxy][Response::error_proxy] Unable to fetch proxy
//! * __44__ [slow_down][Response::slow_down] Too many requests
//! * __50__ [error_perm][Response::error_perm] Permanent error
//! * __51__ [not_found][Response::not_found] File not found
//! * __52__ [gone][Response::gone] File no longer exists
//! * __53__ [proxy_refused][Response::proxy_refused] Proxies are not allowed
//! * __59__ [bad_request][Response::bad_request] Unable to parse request
//! * __60__ [cert_required][Response::cert_required] Certificate is required
//! * __61__ [cert_not_authorised][Response::cert_not_authorised] Certificate not authorised
//! * __62__ [cert_not_valid][Response::cert_not_valid] Certificate is invalid
//!
//! A body held in memory is serialised by [serialize](Response::serialize),
//! which hands back exactly the bytes the wire expects: header line first,
//! body bytes immediately after, nothing else. A streamed body (a file, a
//! socket) is the transport layer's business: it writes the
//! [header](Response::header) first and pumps the stream afterwards, which
//! keeps the same ordering guarantee.

use vstd::prelude::*;

use crate::strings::dec_str;
use crate::strings::u32_to_string;

verus! {

broadcast use vstd::string::group_string_axioms;

/// Gemini Response: a status code, one metadata line, and an optional
/// in-memory body.
pub struct Response {
    pub code: u32,
    pub meta: String,
    /// The response body. Only a success (2X) response should carry one:
    /// for every other class the metadata line itself is the message and no
    /// body bytes are ever written.
    pub body: Option<Vec<u8>>,
}

/// The characters of the response's header line: the code as plain decimal
/// digits, one space, the metadata, and a CRLF terminator.
pub open spec fn header_chars(r: Response) -> Seq<char> {
    dec_str(r.code as nat) + " "@ + r.meta@ + "\r\n"@
}

/// The exact bytes the response puts on the wire: the UTF-8 bytes of the
/// header line, then the body bytes (if any), and nothing after them.
pub open spec fn wire_bytes(r: Response) -> Seq<u8> {
    vstd::utf8::encode_utf8(header_chars(r)) + match r.body {
        Some(b) => b@,
        None => Seq::<u8>::empty(),
    }
}

impl Response {
    /// Create a new response with no body.
    pub fn new(code: u32, meta: &str) -> (r: Self)
        ensures
            r.code == code,
            r.meta@ == meta@,
            r.body is None,
    {
        Self { code, meta: meta.to_owned(), body: None }
    }

    /// Set the body of the response, replacing any previous body.
    pub fn body(self, body: Vec<u8>) -> (r: Self)
        ensures
            r.code == self.code,
            r.meta == self.meta,
            r.body == Some(body),
    {
        Self { body: Some(body), ..self }
    }

    /// Request for a query input (__10__). The meta line is a prompt which
    /// should be displayed to the user.
    pub fn input(request: &str) -> (r: Self)
        ensures
            r.code == 10,
            r.meta@ == request@,
            r.body is None,
    {
        Self::new(10, request)
    }

    /// Request for a sensitive query input (__11__): as per status code 10,
    /// but the user's input should not be echoed to the screen.
    pub fn input_sensitive(request: &str) -> (r: Self)
        ensures
            r.code == 11,
            r.meta@ == request@,
            r.body is None,
    {
        Self::new(11, request)
    }

    /// Success response with a string body (__20__). The meta line is the
    /// MIME media type which applies to the response body.
    pub fn success(mime: &str, body: &str) -> (r: Self)
        ensures
            r.code == 20,
            r.meta@ == mime@,
            r.body matches Some(b) && b@ == vstd::utf8::encode_utf8(body@),
    {
        Self::new(20, mime).body(body.as_bytes_vec())
    }

    /// Success response with a byte body (__20__). The meta line is the
    /// MIME media type which applies to the response body.
    pub fn success_bytes(mime: &str, body: Vec<u8>) -> (r: Self)
        ensures
            r.code == 20,
            r.meta@ == mime@,
            r.body == Some(body),
    {
        Self::new(20, mime).body(body)
    }

    /// Temporary redirect response (__30__). The meta line is the new URL
    /// for the requested resource.
    pub fn redirect(redirect: &str) -> (r: Self)
        ensures
            r.code == 30,
            r.meta@ == redirect@,
            r.body is None,
    {
        Self::new(30, redirect)
    }

    /// Permanent redirect response (__31__): the resource should be
    /// consistently requested from the new URL in future.
    pub fn redirect_perm(redirect: &str) -> (r: Self)
        ensures
            r.code == 31,
            r.meta@ == redirect@,
            r.body is None,
    {
        Self::new(31, redirect)
    }

    /// Temporary error response (__40__): an identical request may succeed
    /// in the future.
    pub fn error_temp(message: &str) -> (r: Self)
        ensures
            r.code == 40,
            r.meta@ == message@,
            r.body is None,
    {
        Self::new(40, message)
    }

    /// Unavailable response (__41__): the server is unavailable due to
    /// overload or maintenance.
    pub fn unavailable(message: &str) -> (r: Self)
        ensures
            r.code == 41,
            r.meta@ == message@,
            r.body is None,
    {
        Self::new(41, message)
    }

    /// CGI error response (__42__): a process for generating dynamic
    /// content died unexpectedly or timed out.
    pub fn error_cgi(message: &str) -> (r: Self)
        ensures
            r.code == 42,
            r.meta@ == message@,
            r.body is None,
    {
        Self::new(42, message)
    }

    /// Proxy error response (__43__): a transaction with the remote host
    /// could not be completed.
    pub fn error_proxy(message: &str) -> (r: Self)
        ensures
            r.code == 43,
            r.meta@ == message@,
            r.body is None,
    {
        Self::new(43, message)
    }

    /// Slow down response (__44__): rate limiting is in effect. The meta
    /// line is the integer number of seconds the client must wait before
    /// another request is made to this server.
    pub fn slow_down(seconds: u32) -> (r: Self)
        ensures
            r.code == 44,
            r.meta@ == dec_str(seconds as nat),
            r.body is None,
    {
        Self { code: 44, meta: u32_to_string(seconds), body: None }
    }

    /// Permanent error response (__50__): identical future requests will
    /// reliably fail for the same reason.
    pub fn error_perm(message: &str) -> (r: Self)
        ensures
            r.code == 50,
            r.meta@ == message@,
            r.body is None,
    {
        Self::new(50, message)
    }

    /// Not found response (__51__): the requested resource could not be
    /// found but may be available in the future.
    pub fn not_found(message: &str) -> (r: Self)
        ensures
            r.code == 51,
            r.meta@ == message@,
            r.body is None,
    {
        Self::new(51, message)
    }

    /// Gone response (__52__): the resource is no longer available and will
    /// not be available again.
    pub fn gone(message: &str) -> (r: Self)
        ensures
            r.code == 52,
            r.meta@ == message@,
            r.body is None,
    {
        Self::new(52, message)
    }

    /// Proxy refused response (__53__): the request was for a resource at a
    /// domain not served by the server.
    pub fn proxy_refused(message: &str) -> (r: Self)
        ensures
            r.code == 53,
            r.meta@ == message@,
            r.body is None,
    {
        Self::new(53, message)
    }

    /// Bad request response (__59__): the server was unable to parse the
    /// client's request.
    pub fn bad_request(message: &str) -> (r: Self)
        ensures
            r.code == 59,
            r.meta@ == message@,
            r.body is None,
    {
        Self::new(59, message)
    }

    /// Cert required response (__60__): the requested resource requires a
    /// client certificate to access.
    pub fn cert_required(message: &str) -> (r: Self)
        ensures
            r.code == 60,
            r.meta@ == message@,
            r.body is None,
    {
        Self::new(60, message)
    }

    /// Cert not authorised response (__61__): the supplied certificate is
    /// not authorised for this particular resource.
    pub fn cert_not_authorised(message: &str) -> (r: Self)
        ensures
            r.code == 61,
            r.meta@ == message@,
            r.body is None,
    {
        Self::new(61, message)
    }

    /// Cert not valid response (__62__): the supplied certificate was not
    /// accepted because it is not valid in and of itself.
    pub fn cert_not_valid(message: &str) -> (r: Self)
        ensures
            r.code == 62,
            r.meta@ == message@,
            r.body is None,
    {
        Self::new(62, message)
    }

    /// Get the full header line for this response.
    pub fn header(&self) -> (r: String)
        ensures
            r@ == header_chars(*self),
    {
        let mut s = u32_to_string(self.code);
        s.append(" ");
        s.append(self.meta.as_str());
        s.append("\r\n");
        s
    }

    /// Serialise the response onto the end of a byte destination: the
    /// header line's bytes first, then the body bytes if a body is present,
    /// and nothing after them. The response is consumed: it is serialised
    /// exactly once.
    pub fn serialize(self, out: &mut Vec<u8>)
        ensures
            final(out)@ == old(out)@ + wire_bytes(self),
    {
        let header = self.header();
        out.extend_from_slice(header.as_str().as_bytes());
        match self.body {
            Some(body) => {
                out.extend_from_slice(body.as_slice());
            },
            None => {},
        }
    }
}

} // verus!
