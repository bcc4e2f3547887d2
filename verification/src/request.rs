//! Gemini Request
//!
//! The gemini request contains all the information needed to handle a
//! request. It is built once, by [Request::parse_request], from the raw
//! key/value fields a gateway convention supplies; both conventions populate
//! exactly the same fields, so a handler cannot tell them apart.

use vstd::prelude::*;

use crate::error::GemError;
use crate::error::GemErrorType;
use crate::strings::dec_digits_part;
use crate::strings::dec_parses;
use crate::strings::dec_val;
use crate::strings::find_char_from;
use crate::strings::find_idx;
use crate::strings::parse_u16;
use crate::strings::split_on;
use crate::strings::str_eq;
use crate::varmap::VarMap;

verus! {

/// The `,`-separated groups of an X.509-style name.
pub open spec fn name_groups(s: Seq<char>) -> Seq<Seq<char>> {
    split_on(s, ',')
}

/// Whether one `KEY=VALUE` group holds an `=` separator.
pub open spec fn group_splits(g: Seq<char>) -> bool {
    find_idx(g, '=') < g.len()
}

/// The key of a group: what stands before its first `=`.
pub open spec fn group_key(g: Seq<char>) -> Seq<char> {
    g.subrange(0, find_idx(g, '=') as int)
}

/// The value of a group: what stands after its first `=`.
pub open spec fn group_val(g: Seq<char>) -> Seq<char> {
    g.subrange(find_idx(g, '=') as int + 1, g.len() as int)
}

/// Whether a whole X.509-style name parses: every group has a separator.
pub open spec fn name_parses(s: Seq<char>) -> bool {
    forall|i: int| 0 <= i < name_groups(s).len() ==> group_splits(#[trigger] name_groups(s)[i])
}

/// The attribute mapping a sequence of groups denotes; on a duplicate key
/// the last value wins.
pub open spec fn attrs_of(gs: Seq<Seq<char>>) -> Map<Seq<char>, Seq<char>>
    decreases gs.len(),
{
    if gs.len() == 0 {
        Map::empty()
    } else {
        attrs_of(gs.drop_last()).insert(group_key(gs.last()), group_val(gs.last()))
    }
}

/// The attribute mapping of an X.509-style name.
pub open spec fn name_map(s: Seq<char>) -> Map<Seq<char>, Seq<char>> {
    attrs_of(name_groups(s))
}

/// Parse an X.509 Name, a `,`-separated list of `KEY=VALUE` groups, into a
/// key/value mapping. No charset or escaping rules are applied: this is a
/// deliberately shallow parse. A group without an `=` is a bad-certificate
/// error.
pub fn parse_client_name(name: &str) -> (r: Result<VarMap, GemError>)
    ensures
        r is Ok <==> name_parses(name@),
        r matches Ok(m) ==> m@ == name_map(name@),
        r matches Err(e) ==> e.error_type is BadCert,
{
    let n = name.unicode_len();
    let mut m = VarMap::new();
    let mut p: usize = 0;
    let ghost gs = name_groups(name@);
    let ghost done: int = 0;
    proof {
        assert(gs.take(0) =~= Seq::<Seq<char>>::empty());
        assert(name@.subrange(0, n as int) =~= name@);
        assert(gs =~= gs.take(0) + split_on(name@.subrange(0, n as int), ','));
    }
    loop
        invariant
            p <= n,
            n == name@.len(),
            gs == name_groups(name@),
            0 <= done < gs.len(),
            gs == gs.take(done) + split_on(
                name@.subrange(p as int, n as int),
                ',',
            ),
            forall|i: int| 0 <= i < done ==> group_splits(#[trigger] gs[i]),
            m@ == attrs_of(gs.take(done)),
        decreases n - p,
    {
        let ghost rem = name@.subrange(p as int, n as int);
        let cut = find_char_from(name, ',', p);
        proof {
            assert(find_idx(rem, ',') == cut - p);
        }
        let g = name.substring_char(p, cut);
        proof {
            assert(g@ == rem.subrange(0, cut - p));
            if cut < n {
                assert(split_on(rem, ',') == seq![g@] + split_on(
                    rem.subrange(cut - p + 1, rem.len() as int),
                    ',',
                ));
            } else {
                assert(split_on(rem, ',') == seq![g@]);
            }
            assert(gs[done] == g@);
        }
        let glen = g.unicode_len();
        let eq = find_char_from(g, '=', 0);
        proof {
            assert(g@.subrange(0, g@.len() as int) =~= g@);
            assert(find_idx(g@, '=') == eq);
        }
        if eq == glen {
            proof {
                assert(!group_splits(gs[done]));
            }
            return Err(GemError::new(
                GemErrorType::BadCert,
                String::from_str("Invalid X.509 Name"),
            ));
        }
        let key = g.substring_char(0, eq).to_owned();
        let val = g.substring_char(eq + 1, glen).to_owned();
        m.insert(key, val);
        proof {
            assert(key@ == group_key(g@));
            assert(val@ == group_val(g@));
            assert(gs.take(done + 1).drop_last() =~= gs.take(done));
            assert(gs.take(done + 1).last() == gs[done]);
            assert(m@ == attrs_of(gs.take(done + 1)));
        }
        if cut == n {
            proof {
                assert(gs =~= gs.take(done + 1));
                assert(m@ == name_map(name@));
                assert(forall|i: int| 0 <= i < gs.len() ==> group_splits(#[trigger] gs[i]));
            }
            return Ok(m);
        }
        proof {
            assert(rem.subrange(cut - p + 1, rem.len() as int) =~= name@.subrange(
                cut + 1,
                n as int,
            ));
        }
        p = cut + 1;
        proof {
            done = done + 1;
            assert(gs.take(done) =~= gs.take(done - 1).push(gs[done - 1]));
            assert(gs == gs.take(done) + split_on(name@.subrange(p as int, n as int), ','));
        }
    }
}

/// A point in time with its timezone: what an RFC 3339 timestamp denotes,
/// held as plain values.
#[derive(Debug, Clone, Copy, PartialEq, Eq, Structural)]
pub struct Instant {
    /// Seconds since the Unix epoch (ignoring leap seconds).
    pub unix_seconds: i64,
    /// The sub-second part, in nanoseconds.
    pub subsec_nanos: u32,
    /// The local timezone's offset from UTC, in seconds.
    pub offset_seconds: i32,
}

/// What chrono's RFC 3339 parser returns for a string: `None` when the
/// string is not a valid RFC 3339 timestamp, and otherwise the instant's
/// Unix seconds, sub-second nanoseconds, and timezone offset seconds.
pub uninterp spec fn rfc3339_instant(s: Seq<char>) -> Option<(i64, u32, i32)>;

/// Relies on chrono's `DateTime::parse_from_rfc3339`, whose result depends
/// on the characters of its input alone; `timestamp`,
/// `timestamp_subsec_nanos` and `offset().local_minus_utc()` read the
/// parsed value out as plain numbers.
#[verifier::external_body]
fn parse_rfc3339(s: &str) -> (r: Option<Instant>)
    ensures
        r is Some <==> rfc3339_instant(s@) is Some,
        r matches Some(t) ==> rfc3339_instant(s@) == Some(
            (t.unix_seconds, t.subsec_nanos, t.offset_seconds),
        ),
{
    match chrono::DateTime::parse_from_rfc3339(s) {
        Ok(dt) => Some(Instant {
            unix_seconds: dt.timestamp(),
            subsec_nanos: dt.timestamp_subsec_nanos(),
            offset_seconds: dt.offset().local_minus_utc(),
        }),
        Err(_) => None,
    }
}

/// Client Certificate
///
/// [hash](Certificate::hash) is the primary identifier for the certificate;
/// information about the certificate is in [subject](Certificate::subject),
/// and the certificate is valid when the date is between
/// [not_before](Certificate::not_before) and
/// [not_after](Certificate::not_after).
#[derive(Debug)]
pub struct Certificate {
    /// The identifying token for the certificate
    pub hash: String,
    /// Information about the issuing certificate. This should be the same
    /// as subject. subject is preferred
    pub issuer: VarMap,
    /// Information about the certificate.
    pub subject: VarMap,
    /// The time when the certificate expires
    pub not_after: Instant,
    /// The time when the certificate was created
    pub not_before: Instant,
}

/// Whether one of the five certificate fields is missing.
pub open spec fn missing_cert_key(m: Map<Seq<char>, Seq<char>>) -> bool {
    !(m.contains_key("TLS_CLIENT_HASH"@) && m.contains_key("TLS_CLIENT_ISSUER"@)
        && m.contains_key("TLS_CLIENT_SUBJECT"@) && m.contains_key("TLS_CLIENT_NOT_AFTER"@)
        && m.contains_key("TLS_CLIENT_NOT_BEFORE"@))
}

/// Whether the five certificate fields are present and parse: the two names
/// as X.509-style names, the two timestamps as RFC 3339 instants.
pub open spec fn cert_vars_ok(m: Map<Seq<char>, Seq<char>>) -> bool {
    &&& !missing_cert_key(m)
    &&& rfc3339_instant(m["TLS_CLIENT_NOT_AFTER"@]) is Some
    &&& rfc3339_instant(m["TLS_CLIENT_NOT_BEFORE"@]) is Some
    &&& name_parses(m["TLS_CLIENT_ISSUER"@])
    &&& name_parses(m["TLS_CLIENT_SUBJECT"@])
}

/// The fields of a certificate built from the raw variables `m`.
pub open spec fn cert_matches_vars(c: Certificate, m: Map<Seq<char>, Seq<char>>) -> bool {
    &&& c.hash@ == m["TLS_CLIENT_HASH"@]
    &&& c.issuer@ == name_map(m["TLS_CLIENT_ISSUER"@])
    &&& c.subject@ == name_map(m["TLS_CLIENT_SUBJECT"@])
    &&& rfc3339_instant(m["TLS_CLIENT_NOT_AFTER"@]) == Some(
        (c.not_after.unix_seconds, c.not_after.subsec_nanos, c.not_after.offset_seconds),
    )
    &&& rfc3339_instant(m["TLS_CLIENT_NOT_BEFORE"@]) == Some(
        (c.not_before.unix_seconds, c.not_before.subsec_nanos, c.not_before.offset_seconds),
    )
}

impl Certificate {
    /// Build a certificate from the raw gateway variables. A missing field
    /// is a runtime error; a field that does not parse — a name without its
    /// `=`, a timestamp that is not RFC 3339 — invalidates the certificate.
    pub fn parse_cert(vars: &VarMap) -> (r: Result<Self, GemError>)
        ensures
            r is Ok <==> cert_vars_ok(vars@),
            r matches Ok(c) ==> cert_matches_vars(c, vars@),
            r matches Err(e) ==> (e.error_type is RuntimeError <==> missing_cert_key(vars@)),
            r matches Err(e) ==> (e.error_type is BadCert <==> !missing_cert_key(vars@)),
    {
        let hash = match get_required(vars, "TLS_CLIENT_HASH") {
            Ok(v) => v,
            Err(e) => return Err(e),
        };
        let issuer = match get_required(vars, "TLS_CLIENT_ISSUER") {
            Ok(v) => v,
            Err(e) => return Err(e),
        };
        let subject = match get_required(vars, "TLS_CLIENT_SUBJECT") {
            Ok(v) => v,
            Err(e) => return Err(e),
        };
        let not_after = match get_required(vars, "TLS_CLIENT_NOT_AFTER") {
            Ok(v) => v,
            Err(e) => return Err(e),
        };
        let not_before = match get_required(vars, "TLS_CLIENT_NOT_BEFORE") {
            Ok(v) => v,
            Err(e) => return Err(e),
        };
        let not_after = match parse_rfc3339(not_after.as_str()) {
            Some(t) => t,
            None => {
                return Err(GemError::new(
                    GemErrorType::BadCert,
                    String::from_str("Invalid certificate timestamp"),
                ));
            },
        };
        let not_before = match parse_rfc3339(not_before.as_str()) {
            Some(t) => t,
            None => {
                return Err(GemError::new(
                    GemErrorType::BadCert,
                    String::from_str("Invalid certificate timestamp"),
                ));
            },
        };
        let issuer = match parse_client_name(issuer.as_str()) {
            Ok(m) => m,
            Err(e) => return Err(e),
        };
        let subject = match parse_client_name(subject.as_str()) {
            Ok(m) => m,
            Err(e) => return Err(e),
        };
        Ok(Self { hash, not_before, not_after, issuer, subject })
    }
}

/// Look a required variable up, cloning its value; a missing key is a
/// runtime error.
fn get_required(vars: &VarMap, key: &str) -> (r: Result<String, GemError>)
    ensures
        r is Ok <==> vars@.contains_key(key@),
        r matches Ok(v) ==> v@ == vars@[key@],
        r matches Err(e) ==> e.error_type is RuntimeError,
{
    match vars.get(key) {
        Some(v) => Ok(v.clone()),
        None => Err(GemError::new(
            GemErrorType::RuntimeError,
            String::from_str("Missing variable ").concat(key),
        )),
    }
}

/// Information about a request
#[derive(Debug)]
pub struct Request {
    /// URL Path relative to the script
    pub path: String,
    /// URL Path of the script
    pub script: String,
    /// Query component of the URL
    pub query: String,
    /// Server component of the URL
    pub server_name: String,
    /// Port component of the URL
    pub server_port: u16,
    /// Full URL
    pub url: String,
    /// IP address of the client
    pub remote_addr: String,
    /// FQDN of the client (if unresolvable, will be the same as remote_addr)
    pub remote_host: String,
    /// The protocol of the URL (should always be "GEMINI")
    pub protocol: String,
    /// The client certificate if one was provided
    pub client_cert: Option<Certificate>,
}

/// Whether the nine base request fields are present.
pub open spec fn base_keys_present(m: Map<Seq<char>, Seq<char>>) -> bool {
    &&& m.contains_key("PATH_INFO"@)
    &&& m.contains_key("SCRIPT_NAME"@)
    &&& m.contains_key("SERVER_NAME"@)
    &&& m.contains_key("QUERY_STRING"@)
    &&& m.contains_key("SERVER_PORT"@)
    &&& m.contains_key("GEMINI_URL"@)
    &&& m.contains_key("REMOTE_ADDR"@)
    &&& m.contains_key("REMOTE_HOST"@)
    &&& m.contains_key("SERVER_PROTOCOL"@)
}

/// Whether the server port field is a 16-bit unsigned decimal.
pub open spec fn port_parses(m: Map<Seq<char>, Seq<char>>) -> bool {
    dec_parses(m["SERVER_PORT"@], u16::MAX as int)
}

/// Whether the gateway signalled certificate-based authentication.
pub open spec fn cert_requested(m: Map<Seq<char>, Seq<char>>) -> bool {
    m.contains_key("AUTH_TYPE"@) && m["AUTH_TYPE"@] == "CERTIFICATE"@
}

/// Whether a full request can be built from the raw variables `m`.
pub open spec fn request_vars_ok(m: Map<Seq<char>, Seq<char>>) -> bool {
    &&& base_keys_present(m)
    &&& port_parses(m)
    &&& (cert_requested(m) ==> cert_vars_ok(m))
}

/// The fields of a request built from the raw variables `m`: every field is
/// the variable's value exactly, transformed only by its declared parse
/// (the port to an integer, the certificate fields through the certificate
/// parser), and the certificate is present exactly when the gateway
/// signalled certificate-based authentication.
pub open spec fn request_matches_vars(q: Request, m: Map<Seq<char>, Seq<char>>) -> bool {
    &&& q.path@ == m["PATH_INFO"@]
    &&& q.script@ == m["SCRIPT_NAME"@]
    &&& q.server_name@ == m["SERVER_NAME"@]
    &&& q.query@ == m["QUERY_STRING"@]
    &&& q.server_port == dec_val(dec_digits_part(m["SERVER_PORT"@]))
    &&& q.url@ == m["GEMINI_URL"@]
    &&& q.remote_addr@ == m["REMOTE_ADDR"@]
    &&& q.remote_host@ == m["REMOTE_HOST"@]
    &&& q.protocol@ == m["SERVER_PROTOCOL"@]
    &&& (q.client_cert is Some <==> cert_requested(m))
    &&& (q.client_cert matches Some(c) ==> cert_matches_vars(c, m))
}

impl Request {
    /// Build the canonical request from the raw gateway variables. Both
    /// conventions feed this one function, so the fields are populated the
    /// same way whichever convention produced them.
    ///
    /// The nine base fields are required and the port must be a 16-bit
    /// unsigned decimal; when the auth-type field holds the
    /// certificate-signifying value, the five certificate fields are
    /// required as well and must parse.
    pub fn parse_request(vars: &VarMap) -> (r: Result<Self, GemError>)
        ensures
            r is Ok <==> request_vars_ok(vars@),
            r matches Ok(q) ==> request_matches_vars(q, vars@),
            r matches Err(e) ==> e.error_type is BadCert || e.error_type is RuntimeError,
            r matches Err(e) ==> (e.error_type is BadCert ==> base_keys_present(vars@)
                && port_parses(vars@) && cert_requested(vars@) && !missing_cert_key(vars@)),
            r matches Err(e) ==> (e.error_type is RuntimeError ==> !base_keys_present(vars@)
                || !port_parses(vars@) || (cert_requested(vars@) && missing_cert_key(vars@))),
    {
        let path = match get_required(vars, "PATH_INFO") {
            Ok(v) => v,
            Err(e) => return Err(e),
        };
        let script = match get_required(vars, "SCRIPT_NAME") {
            Ok(v) => v,
            Err(e) => return Err(e),
        };
        let server = match get_required(vars, "SERVER_NAME") {
            Ok(v) => v,
            Err(e) => return Err(e),
        };
        let query = match get_required(vars, "QUERY_STRING") {
            Ok(v) => v,
            Err(e) => return Err(e),
        };
        let port_raw = match get_required(vars, "SERVER_PORT") {
            Ok(v) => v,
            Err(e) => return Err(e),
        };
        let port: u16 = match parse_u16(port_raw.as_str()) {
            Some(v) => v,
            None => {
                return Err(GemError::new(
                    GemErrorType::RuntimeError,
                    String::from_str("Invalid server port"),
                ));
            },
        };
        let url = match get_required(vars, "GEMINI_URL") {
            Ok(v) => v,
            Err(e) => return Err(e),
        };
        let remote_addr = match get_required(vars, "REMOTE_ADDR") {
            Ok(v) => v,
            Err(e) => return Err(e),
        };
        let remote_host = match get_required(vars, "REMOTE_HOST") {
            Ok(v) => v,
            Err(e) => return Err(e),
        };
        let protocol = match get_required(vars, "SERVER_PROTOCOL") {
            Ok(v) => v,
            Err(e) => return Err(e),
        };

        let cert_auth = match vars.get("AUTH_TYPE") {
            Some(v) => str_eq(v.as_str(), "CERTIFICATE"),
            None => false,
        };
        let cert = if cert_auth {
            match Certificate::parse_cert(vars) {
                Ok(c) => Some(c),
                Err(e) => return Err(e),
            }
        } else {
            None
        };

        Ok(Self {
            path,
            script,
            query,
            server_name: server,
            server_port: port,
            url,
            remote_addr,
            remote_host,
            protocol,
            client_cert: cert,
        })
    }
}

} // verus!
