//! Custom error helpers
//!
//! A [GemError] describes a recoverable, protocol-meaningful failure. Every
//! error kind maps onto exactly one Gemini status code, so an error can
//! always be turned into a well-formed response ([GemError::to_response]).
//!
//! [ToGemError] converts a fallible value into a [GemError] result; it is
//! implemented for [Result] (with a textual error) and [Option].

use vstd::prelude::*;

use crate::response::Response;
use crate::strings::dec_digits_part;
use crate::strings::dec_parses;
use crate::strings::dec_str;
use crate::strings::dec_val;
use crate::strings::parse_u32;
use crate::strings::u32_to_string;

verus! {

/// The kind of error that has happened.
///
/// Each kind corresponds to one Gemini response code and determines the type
/// of response that is sent.
#[derive(Debug, Clone, Copy, PartialEq, Eq, Structural)]
pub enum GemErrorType {
    /// __40__ Temporary Error
    TempError,
    /// __50__ Permanent Error
    PermError,
    /// __41__ Server Unavailable
    Unavailable,
    /// __42__ CGI Error
    RuntimeError,
    /// __43__ Unable to fetch Proxy
    ProxyError,
    /// __44__ Too many requests -- The message should be the number of
    /// seconds before another request is made
    TooManyRequests,
    /// __51__ File not found
    NotFound,
    /// __52__ File no longer exists
    Gone,
    /// __53__ Proxy requests are not allowed
    ProxyRefused,
    /// __59__ Unable to parse request
    BadRequest,
    /// __60__ A certificate is needed
    CertNeeded,
    /// __61__ The certificate was not authorised
    CertUnAuthorised,
    /// __62__ The certificate is invalid
    BadCert,
}

/// The canonical one-line text for an error kind: what the response metadata
/// falls back to when the error carries no plain message of its own.
pub open spec fn canonical_text(t: GemErrorType) -> Seq<char> {
    match t {
        GemErrorType::TempError => "Temporary Error"@,
        GemErrorType::PermError => "Permanent Error"@,
        GemErrorType::Unavailable => "Server Unavailable"@,
        GemErrorType::RuntimeError => "Internal Server Error"@,
        GemErrorType::ProxyError => "Proxy Error"@,
        GemErrorType::TooManyRequests => "10"@,
        GemErrorType::NotFound => "File not found"@,
        GemErrorType::Gone => "File no longer exists"@,
        GemErrorType::ProxyRefused => "Proxies are not allowed"@,
        GemErrorType::BadRequest => "Invalid Request"@,
        GemErrorType::CertNeeded => "Certificate needed"@,
        GemErrorType::CertUnAuthorised => "Certificate not Authorised"@,
        GemErrorType::BadCert => "Invalid Certificate"@,
    }
}

/// The status code an error kind maps to.
pub open spec fn status_code(t: GemErrorType) -> u32 {
    match t {
        GemErrorType::TempError => 40,
        GemErrorType::PermError => 50,
        GemErrorType::Unavailable => 41,
        GemErrorType::RuntimeError => 42,
        GemErrorType::ProxyError => 43,
        GemErrorType::TooManyRequests => 44,
        GemErrorType::NotFound => 51,
        GemErrorType::Gone => 52,
        GemErrorType::ProxyRefused => 53,
        GemErrorType::BadRequest => 59,
        GemErrorType::CertNeeded => 60,
        GemErrorType::CertUnAuthorised => 61,
        GemErrorType::BadCert => 62,
    }
}

impl GemErrorType {
    /// The canonical one-line text for this error kind.
    pub fn text(&self) -> (r: String)
        ensures
            r@ == canonical_text(*self),
    {
        match self {
            GemErrorType::TempError => String::from_str("Temporary Error"),
            GemErrorType::PermError => String::from_str("Permanent Error"),
            GemErrorType::Unavailable => String::from_str("Server Unavailable"),
            GemErrorType::RuntimeError => String::from_str("Internal Server Error"),
            GemErrorType::ProxyError => String::from_str("Proxy Error"),
            GemErrorType::TooManyRequests => String::from_str("10"),
            GemErrorType::NotFound => String::from_str("File not found"),
            GemErrorType::Gone => String::from_str("File no longer exists"),
            GemErrorType::ProxyRefused => String::from_str("Proxies are not allowed"),
            GemErrorType::BadRequest => String::from_str("Invalid Request"),
            GemErrorType::CertNeeded => String::from_str("Certificate needed"),
            GemErrorType::CertUnAuthorised => String::from_str("Certificate not Authorised"),
            GemErrorType::BadCert => String::from_str("Invalid Certificate"),
        }
    }
}

/// The message of the error: either the textual description of a wrapped
/// underlying failure, or a plain string chosen by the caller.
#[derive(Debug)]
pub enum GemErrorMsg {
    /// The description of an underlying failure that was wrapped.
    Error(String),
    /// A plain message.
    Message(String),
}

/// A custom error type for gemfra
///
/// This error can be converted into a gemini [Response].
///
/// The error consists of an error kind and a message. The message is either
/// the description of a wrapped underlying failure or a plain string.
#[derive(Debug)]
pub struct GemError {
    pub error_type: GemErrorType,
    pub msg: GemErrorMsg,
}

/// The text an error's message holds, whichever variant carries it.
pub open spec fn message_text(e: GemError) -> Seq<char> {
    match e.msg {
        GemErrorMsg::Error(m) => m@,
        GemErrorMsg::Message(m) => m@,
    }
}

/// The one-line message an error contributes to its response: a wrapped
/// failure is replaced by the kind's canonical text, a plain message is kept.
pub open spec fn effective_message(e: GemError) -> Seq<char> {
    match e.msg {
        GemErrorMsg::Error(_) => canonical_text(e.error_type),
        GemErrorMsg::Message(m) => m@,
    }
}

/// The wait the rate-limit response announces: the error's message when it
/// is a decimal number of seconds, and the fixed default of 10 otherwise.
pub open spec fn wait_seconds(m: Seq<char>) -> nat {
    if dec_parses(m, u32::MAX as int) {
        dec_val(dec_digits_part(m)) as nat
    } else {
        10
    }
}

/// The metadata line of the response an error maps to.
pub open spec fn response_meta(e: GemError) -> Seq<char> {
    if e.error_type is TooManyRequests {
        dec_str(wait_seconds(effective_message(e)))
    } else {
        effective_message(e)
    }
}

impl GemError {
    /// Create a new error using a string message
    pub fn new(error_type: GemErrorType, msg: String) -> (r: Self)
        ensures
            r == (GemError { error_type, msg: GemErrorMsg::Message(msg) }),
    {
        Self { error_type, msg: GemErrorMsg::Message(msg) }
    }

    /// Create a new error wrapping an existing failure, given its
    /// textual description.
    pub fn from_err(error_type: GemErrorType, msg: String) -> (r: Self)
        ensures
            r == (GemError { error_type, msg: GemErrorMsg::Error(msg) }),
    {
        Self { error_type, msg: GemErrorMsg::Error(msg) }
    }

    /// Get the error message as a string
    pub fn message(&self) -> (r: String)
        ensures
            r@ == message_text(*self),
    {
        match &self.msg {
            GemErrorMsg::Error(m) => m.clone(),
            GemErrorMsg::Message(m) => m.clone(),
        }
    }

    /// Map an existing error into a GemError
    pub fn map<R>(error_type: GemErrorType, result: Result<R, String>) -> (r: Result<R, Self>)
        ensures
            match result {
                Ok(v) => r == Result::<R, Self>::Ok(v),
                Err(e) => r == Result::<R, Self>::Err(
                    GemError { error_type, msg: GemErrorMsg::Error(e) },
                ),
            },
    {
        match result {
            Ok(val) => Ok(val),
            Err(err) => Err(Self::from_err(error_type, err)),
        }
    }

    /// The canonical response for this error (__40__ .. __62__): its status
    /// code is fixed by the error kind, its metadata line carries the
    /// message, and it never has a body.
    ///
    /// A rate-limit error renders its message as the decimal number of
    /// seconds to wait, substituting the fixed default of 10 when the
    /// message is not a number.
    pub fn to_response(self) -> (r: Response)
        ensures
            r.code == status_code(self.error_type),
            r.meta@ == response_meta(self),
            r.body is None,
    {
        let message = match self.msg {
            GemErrorMsg::Error(_) => self.error_type.text(),
            GemErrorMsg::Message(m) => m,
        };
        match self.error_type {
            GemErrorType::TempError => Response::error_temp(message.as_str()),
            GemErrorType::PermError => Response::error_perm(message.as_str()),
            GemErrorType::Unavailable => Response::unavailable(message.as_str()),
            GemErrorType::RuntimeError => Response::error_cgi(message.as_str()),
            GemErrorType::ProxyError => Response::error_proxy(message.as_str()),
            GemErrorType::TooManyRequests => {
                let seconds = match parse_u32(message.as_str()) {
                    Some(val) => val,
                    None => 10,
                };
                Response::slow_down(seconds)
            },
            GemErrorType::NotFound => Response::not_found(message.as_str()),
            GemErrorType::Gone => Response::gone(message.as_str()),
            GemErrorType::ProxyRefused => Response::proxy_refused(message.as_str()),
            GemErrorType::BadRequest => Response::bad_request(message.as_str()),
            GemErrorType::CertNeeded => Response::cert_required(message.as_str()),
            GemErrorType::CertUnAuthorised => Response::cert_not_authorised(message.as_str()),
            GemErrorType::BadCert => Response::cert_not_valid(message.as_str()),
        }
    }

    pub fn temp_error(msg: String) -> (r: Self)
        ensures
            r == (GemError {
                error_type: GemErrorType::TempError,
                msg: GemErrorMsg::Message(msg),
            }),
    {
        Self::new(GemErrorType::TempError, msg)
    }

    pub fn perm_error(msg: String) -> (r: Self)
        ensures
            r == (GemError {
                error_type: GemErrorType::PermError,
                msg: GemErrorMsg::Message(msg),
            }),
    {
        Self::new(GemErrorType::PermError, msg)
    }

    pub fn unavailable(msg: String) -> (r: Self)
        ensures
            r == (GemError {
                error_type: GemErrorType::Unavailable,
                msg: GemErrorMsg::Message(msg),
            }),
    {
        Self::new(GemErrorType::Unavailable, msg)
    }

    pub fn runtime_error(msg: String) -> (r: Self)
        ensures
            r == (GemError {
                error_type: GemErrorType::RuntimeError,
                msg: GemErrorMsg::Message(msg),
            }),
    {
        Self::new(GemErrorType::RuntimeError, msg)
    }

    pub fn proxy_error(msg: String) -> (r: Self)
        ensures
            r == (GemError {
                error_type: GemErrorType::ProxyError,
                msg: GemErrorMsg::Message(msg),
            }),
    {
        Self::new(GemErrorType::ProxyError, msg)
    }

    /// A rate-limit error: `timeout` is the number of seconds the client
    /// must wait before its next request.
    pub fn too_many_requests(timeout: u32) -> (r: Self)
        ensures
            r.error_type is TooManyRequests,
            r.msg matches GemErrorMsg::Message(m) && m@ == dec_str(timeout as nat),
    {
        Self::new(GemErrorType::TooManyRequests, u32_to_string(timeout))
    }

    pub fn not_found(msg: String) -> (r: Self)
        ensures
            r == (GemError {
                error_type: GemErrorType::NotFound,
                msg: GemErrorMsg::Message(msg),
            }),
    {
        Self::new(GemErrorType::NotFound, msg)
    }

    pub fn gone(msg: String) -> (r: Self)
        ensures
            r == (GemError { error_type: GemErrorType::Gone, msg: GemErrorMsg::Message(msg) }),
    {
        Self::new(GemErrorType::Gone, msg)
    }

    pub fn proxy_refused(msg: String) -> (r: Self)
        ensures
            r == (GemError {
                error_type: GemErrorType::ProxyRefused,
                msg: GemErrorMsg::Message(msg),
            }),
    {
        Self::new(GemErrorType::ProxyRefused, msg)
    }

    pub fn bad_request(msg: String) -> (r: Self)
        ensures
            r == (GemError {
                error_type: GemErrorType::BadRequest,
                msg: GemErrorMsg::Message(msg),
            }),
    {
        Self::new(GemErrorType::BadRequest, msg)
    }

    pub fn cert_needed(msg: String) -> (r: Self)
        ensures
            r == (GemError {
                error_type: GemErrorType::CertNeeded,
                msg: GemErrorMsg::Message(msg),
            }),
    {
        Self::new(GemErrorType::CertNeeded, msg)
    }

    pub fn cert_unauthorised(msg: String) -> (r: Self)
        ensures
            r == (GemError {
                error_type: GemErrorType::CertUnAuthorised,
                msg: GemErrorMsg::Message(msg),
            }),
    {
        Self::new(GemErrorType::CertUnAuthorised, msg)
    }

    pub fn bad_cert(msg: String) -> (r: Self)
        ensures
            r == (GemError {
                error_type: GemErrorType::BadCert,
                msg: GemErrorMsg::Message(msg),
            }),
    {
        Self::new(GemErrorType::BadCert, msg)
    }
}

/// The rate-limit metadata round-trips: when an error's message renders a
/// number of seconds as its decimal digits, the response metadata is those
/// same digits, and parsing them back recovers the number exactly.
pub proof fn lemma_rate_limit_round_trip(e: GemError, t: u32)
    requires
        e.error_type is TooManyRequests,
        effective_message(e) == dec_str(t as nat),
    ensures
        response_meta(e) == dec_str(t as nat),
        wait_seconds(response_meta(e)) == t as nat,
{
    crate::strings::lemma_dec_round_trip(t as nat);
}

/// Convert a fallible value into a [GemError] result.
///
/// This is implemented for [Result] (with a textual error) and [Option], so
/// an ordinary failure converts into an error response other than
/// __42__ CGI Error when a more precise kind fits.
pub trait ToGemError<T>: Sized {
    /// Convert the object into a GemError Result.
    ///
    /// By default this will be converted into a
    /// [RuntimeError](GemErrorType::RuntimeError).
    fn into_gem(self) -> Result<T, GemError>;

    /// Convert the object into a GemError Result overriding the default
    /// error kind.
    fn into_gem_type(self, error_type: GemErrorType) -> Result<T, GemError>;

    /// Replace the object with a GemError Result built from a fresh message.
    fn replace_gem(self, error_type: GemErrorType, msg: String) -> Result<T, GemError>;
}

impl<T> ToGemError<T> for Result<T, String> {
    fn into_gem(self) -> (r: Result<T, GemError>)
        ensures
            match self {
                Ok(v) => r == Result::<T, GemError>::Ok(v),
                Err(e) => r == Result::<T, GemError>::Err(
                    GemError {
                        error_type: GemErrorType::RuntimeError,
                        msg: GemErrorMsg::Error(e),
                    },
                ),
            },
    {
        match self {
            Ok(v) => Ok(v),
            Err(e) => Err(GemError::from_err(GemErrorType::RuntimeError, e)),
        }
    }

    fn into_gem_type(self, error_type: GemErrorType) -> (r: Result<T, GemError>)
        ensures
            match self {
                Ok(v) => r == Result::<T, GemError>::Ok(v),
                Err(e) => r == Result::<T, GemError>::Err(
                    GemError { error_type, msg: GemErrorMsg::Error(e) },
                ),
            },
    {
        match self {
            Ok(v) => Ok(v),
            Err(e) => Err(GemError::from_err(error_type, e)),
        }
    }

    fn replace_gem(self, error_type: GemErrorType, msg: String) -> (r: Result<T, GemError>)
        ensures
            match self {
                Ok(v) => r == Result::<T, GemError>::Ok(v),
                Err(_) => r == Result::<T, GemError>::Err(
                    GemError { error_type, msg: GemErrorMsg::Message(msg) },
                ),
            },
    {
        match self {
            Ok(v) => Ok(v),
            Err(_) => Err(GemError::new(error_type, msg)),
        }
    }
}

impl<T> ToGemError<T> for Option<T> {
    fn into_gem(self) -> (r: Result<T, GemError>)
        ensures
            match self {
                Some(v) => r == Result::<T, GemError>::Ok(v),
                None => r matches Result::<T, GemError>::Err(e)
                    && e.error_type is RuntimeError
                    && message_text(e) == "Cannot be None"@,
            },
    {
        match self {
            Some(v) => Ok(v),
            None => Err(GemError::new(
                GemErrorType::RuntimeError,
                String::from_str("Cannot be None"),
            )),
        }
    }

    fn into_gem_type(self, error_type: GemErrorType) -> (r: Result<T, GemError>)
        ensures
            match self {
                Some(v) => r == Result::<T, GemError>::Ok(v),
                None => r matches Result::<T, GemError>::Err(e)
                    && e.error_type == error_type
                    && message_text(e) == "Cannot be None"@,
            },
    {
        match self {
            Some(v) => Ok(v),
            None => Err(GemError::new(error_type, String::from_str("Cannot be None"))),
        }
    }

    fn replace_gem(self, error_type: GemErrorType, msg: String) -> (r: Result<T, GemError>)
        ensures
            match self {
                Some(v) => r == Result::<T, GemError>::Ok(v),
                None => r == Result::<T, GemError>::Err(
                    GemError { error_type, msg: GemErrorMsg::Message(msg) },
                ),
            },
    {
        match self {
            Some(v) => Ok(v),
            None => Err(GemError::new(error_type, msg)),
        }
    }
}

} // verus!
