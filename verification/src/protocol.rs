//! Available Protocols
//!
//! Both gateway conventions are driven the same way: obtain the raw
//! key/value request fields, [respond] to them, and write the response's
//! bytes back out. What differs is only where the fields come from and
//! where the bytes go.
//!
//! - The one-shot convention (CGI) receives its fields as per-invocation
//!   variables and writes to the host's standard output. Diagnostics must
//!   go to a separate stream: a stray line on the output stream corrupts
//!   the wire format. [respond] therefore hands any diagnostic back as a
//!   value instead of printing it.
//! - The persistent-socket convention (SCGI) frames its fields as
//!   `<decimal-length>:<length bytes>`, the bytes holding NUL-delimited
//!   key/value pairs with an empty key at the end.
//!   [parse_scgi_length] reads the length prefix, [parse_scgi_headers] the
//!   framed block; [scgi_respond] turns a block into the response.
//!
//! The transport work itself — environment variables, sockets, streamed
//! bodies — lives with the caller that owns the I/O.

use vstd::prelude::*;

use crate::error::GemError;
use crate::error::GemErrorType;
use crate::request::request_vars_ok;
use crate::request::Request;
use crate::response::Response;
use crate::routed::route_found;
use crate::routed::Route;
use crate::routed::RoutedApp;
use crate::strings::dec_digits_part;
use crate::strings::dec_parses;
use crate::strings::dec_val;
use crate::strings::find_idx;
use crate::strings::parse_dec_u64;
use crate::strings::split_on;
use crate::varmap::VarMap;
use vstd::utf8::decode_utf8;
use vstd::utf8::valid_utf8;

verus! {

/// Relies on std's `String::from_utf8`: the string holding exactly the
/// given bytes, when they are valid UTF-8, and nothing otherwise.
#[verifier::external_body]
fn string_from_utf8(v: &[u8]) -> (r: Option<String>)
    ensures
        r is Some <==> valid_utf8(v@),
        r matches Some(s) ==> s@ == decode_utf8(v@),
{
    String::from_utf8(v.to_vec()).ok()
}

/// Parse the decimal length prefix of an SCGI frame: the bytes must be the
/// UTF-8 text of a decimal length, as `str::parse::<usize>` accepts it; any
/// other byte sequence is a framing error.
pub fn parse_scgi_length(prefix: &Vec<u8>) -> (r: Result<usize, GemError>)
    ensures
        r is Ok <==> valid_utf8(prefix@) && dec_parses(
            decode_utf8(prefix@),
            usize::MAX as int,
        ),
        r matches Ok(v) ==> v == dec_val(dec_digits_part(decode_utf8(prefix@))),
        r matches Err(e) ==> e.error_type is RuntimeError,
{
    let text = match string_from_utf8(prefix.as_slice()) {
        Some(s) => s,
        None => {
            return Err(GemError::new(
                GemErrorType::RuntimeError,
                String::from_str("Invalid header length"),
            ));
        },
    };
    match parse_dec_u64(text.as_str(), usize::MAX as u64) {
        Some(v) => Ok(v as usize),
        None => Err(GemError::new(
            GemErrorType::RuntimeError,
            String::from_str("Invalid header length"),
        )),
    }
}

/// The NUL-separated pieces of an SCGI header block.
pub open spec fn scgi_pieces(payload: Seq<u8>) -> Seq<Seq<u8>> {
    split_on(payload, 0u8)
}

/// The pieces paired up into keys and values, in order. An odd piece at the
/// end must be empty — it is the terminator after the final NUL — else a
/// key is missing its value and the block is malformed.
pub open spec fn scgi_pairs(pieces: Seq<Seq<u8>>) -> Option<Seq<(Seq<u8>, Seq<u8>)>>
    decreases pieces.len(),
{
    if pieces.len() == 0 {
        Some(Seq::empty())
    } else if pieces.len() == 1 {
        if pieces[0].len() == 0 {
            Some(Seq::empty())
        } else {
            None
        }
    } else {
        match scgi_pairs(pieces.skip(2)) {
            Some(rest) => Some(seq![(pieces[0], pieces[1])] + rest),
            None => None,
        }
    }
}

/// Every key and value of the block is valid UTF-8.
pub open spec fn pairs_utf8_ok(ps: Seq<(Seq<u8>, Seq<u8>)>) -> bool {
    forall|i: int| 0 <= i < ps.len() ==> valid_utf8((#[trigger] ps[i]).0) && valid_utf8(ps[i].1)
}

/// Whether an SCGI header block is well formed: its pieces pair up and hold
/// text.
pub open spec fn scgi_ok(payload: Seq<u8>) -> bool {
    match scgi_pairs(scgi_pieces(payload)) {
        Some(ps) => pairs_utf8_ok(ps),
        None => false,
    }
}

/// The mapping a sequence of byte pairs denotes, a later duplicate key
/// winning.
pub open spec fn map_of_pairs(ps: Seq<(Seq<u8>, Seq<u8>)>) -> Map<Seq<char>, Seq<char>>
    decreases ps.len(),
{
    if ps.len() == 0 {
        Map::empty()
    } else {
        map_of_pairs(ps.drop_last()).insert(
            decode_utf8(ps.last().0),
            decode_utf8(ps.last().1),
        )
    }
}

/// The request fields a well-formed SCGI header block carries.
pub open spec fn scgi_map(payload: Seq<u8>) -> Map<Seq<char>, Seq<char>> {
    match scgi_pairs(scgi_pieces(payload)) {
        Some(ps) => map_of_pairs(ps),
        None => Map::empty(),
    }
}

/// The views of a sequence of byte vectors.
spec fn bytes_view(v: Seq<Vec<u8>>) -> Seq<Seq<u8>> {
    v.map_values(|x: Vec<u8>| x@)
}

/// The position of the first `sep` at or after `from`, or the length when
/// there is none.
fn find_byte_from(v: &Vec<u8>, sep: u8, from: usize) -> (r: usize)
    requires
        from <= v@.len(),
    ensures
        r == from + find_idx(v@.subrange(from as int, v@.len() as int), sep),
        from <= r <= v@.len(),
        r < v@.len() ==> v@[r as int] == sep,
{
    let n = v.len();
    let ghost t = v@.subrange(from as int, v@.len() as int);
    let mut i: usize = from;
    while i < n
        invariant
            from <= i <= n,
            n == v@.len(),
            t == v@.subrange(from as int, v@.len() as int),
            forall|m: int| from <= m < i ==> v@[m] != sep,
        decreases n - i,
    {
        if v[i] == sep {
            proof {
                assert(forall|m: int| 0 <= m < i - from ==> t[m] == v@[m + from] && t[m] != sep);
                assert(t[i - from] == sep);
                crate::strings::lemma_find_idx_at(t, sep, i - from);
            }
            return i;
        }
        i = i + 1;
    }
    proof {
        assert(forall|m: int| 0 <= m < t.len() ==> t[m] == v@[m + from] && t[m] != sep);
        crate::strings::lemma_find_idx_at(t, sep, t.len() as int);
    }
    n
}

/// Split a byte block on NUL bytes.
fn split_bytes(payload: &Vec<u8>) -> (r: Vec<Vec<u8>>)
    ensures
        bytes_view(r@) == scgi_pieces(payload@),
{
    let n = payload.len();
    let ghost pieces = scgi_pieces(payload@);
    let mut out: Vec<Vec<u8>> = Vec::new();
    let mut p: usize = 0;
    proof {
        assert(bytes_view(out@) =~= Seq::<Seq<u8>>::empty());
        assert(pieces.take(0) =~= Seq::<Seq<u8>>::empty());
        assert(payload@.subrange(0, n as int) =~= payload@);
        assert(pieces =~= pieces.take(0) + split_on(payload@.subrange(0, n as int), 0u8));
    }
    loop
        invariant
            p <= n,
            n == payload@.len(),
            pieces == scgi_pieces(payload@),
            0 <= out@.len() < pieces.len(),
            pieces == pieces.take(out@.len() as int) + split_on(
                payload@.subrange(p as int, n as int),
                0u8,
            ),
            bytes_view(out@) == pieces.take(out@.len() as int),
        decreases n - p,
    {
        let ghost rem = payload@.subrange(p as int, n as int);
        let ghost done = out@.len() as int;
        let cut = find_byte_from(payload, 0u8, p);
        proof {
            assert(find_idx(rem, 0u8) == cut - p);
        }
        let piece: Vec<u8> = vstd::slice::slice_to_vec(
            vstd::slice::slice_subrange(payload.as_slice(), p, cut),
        );
        proof {
            assert(piece@ == rem.subrange(0, cut - p));
            if cut < n {
                assert(split_on(rem, 0u8) == seq![piece@] + split_on(
                    rem.subrange(cut - p + 1, rem.len() as int),
                    0u8,
                ));
            } else {
                assert(split_on(rem, 0u8) == seq![piece@]);
            }
            assert(pieces[done] == piece@);
        }
        out.push(piece);
        proof {
            assert(bytes_view(out@) =~= pieces.take(done + 1)) by {
                assert(bytes_view(out@).len() == done + 1);
                assert(forall|j: int| 0 <= j < done + 1 ==> bytes_view(out@)[j] == out@[j]@);
            }
        }
        if cut == n {
            proof {
                assert(pieces =~= pieces.take(done + 1));
                assert(bytes_view(out@) == pieces);
            }
            return out;
        }
        proof {
            assert(rem.subrange(cut - p + 1, rem.len() as int) =~= payload@.subrange(
                cut + 1,
                n as int,
            ));
        }
        p = cut + 1;
    }
}

/// Parse the byte block of an SCGI frame into the raw request fields: a
/// sequence of NUL-delimited key/value pairs, terminated by an empty key. A
/// key without a value, or a key or value that is not text, is a framing
/// error.
pub fn parse_scgi_headers(payload: &Vec<u8>) -> (r: Result<VarMap, GemError>)
    ensures
        r is Ok <==> scgi_ok(payload@),
        r matches Ok(m) ==> m@ == scgi_map(payload@),
        r matches Err(e) ==> e.error_type is RuntimeError,
{
    let pieces = split_bytes(payload);
    let ghost allp = scgi_pieces(payload@);
    let mut m = VarMap::new();
    let mut k: usize = 0;
    let ghost done: Seq<(Seq<u8>, Seq<u8>)> = Seq::empty();
    proof {
        assert(allp.skip(0) =~= allp);
    }
    loop
        invariant
            k <= pieces@.len(),
            bytes_view(pieces@) == allp,
            allp == scgi_pieces(payload@),
            pieces@.len() == allp.len(),
            scgi_pairs(allp) is Some <==> scgi_pairs(allp.skip(k as int)) is Some,
            scgi_pairs(allp) matches Some(ps) ==> ps == done + scgi_pairs(
                allp.skip(k as int),
            ).unwrap(),
            pairs_utf8_ok(done),
            m@ == map_of_pairs(done),
        decreases pieces@.len() - k,
    {
        let ghost rest = allp.skip(k as int);
        if k == pieces.len() {
            proof {
                assert(rest =~= Seq::<Seq<u8>>::empty());
                assert(scgi_pairs(rest) == Some(Seq::<(Seq<u8>, Seq<u8>)>::empty()));
                assert(scgi_pairs(allp).unwrap() =~= done);
            }
            return Ok(m);
        }
        proof {
            assert(rest[0] == allp[k as int] && allp[k as int] == pieces@[k as int]@);
        }
        if k + 1 == pieces.len() {
            if pieces[k].len() == 0 {
                proof {
                    assert(rest.len() == 1);
                    assert(scgi_pairs(rest) == Some(Seq::<(Seq<u8>, Seq<u8>)>::empty()));
                    assert(scgi_pairs(allp).unwrap() =~= done);
                }
                return Ok(m);
            }
            proof {
                assert(rest.len() == 1 && rest[0].len() > 0);
                assert(scgi_pairs(rest) is None);
            }
            return Err(GemError::new(
                GemErrorType::RuntimeError,
                String::from_str("Missing header value"),
            ));
        }
        proof {
            assert(rest.len() >= 2);
            assert(rest[1] == allp[k + 1] && allp[k + 1] == pieces@[k + 1]@);
            assert(rest.skip(2) =~= allp.skip(k + 2));
        }
        let ghost pair = (pieces@[k as int]@, pieces@[k + 1]@);
        let key = match string_from_utf8(pieces[k].as_slice()) {
            Some(s) => s,
            None => {
                proof {
                    if scgi_pairs(allp) is Some {
                        let ps = scgi_pairs(allp).unwrap();
                        assert(scgi_pairs(rest).unwrap()[0] == pair);
                        assert(ps[done.len() as int] == pair);
                        assert(!pairs_utf8_ok(ps));
                    }
                }
                return Err(GemError::new(
                    GemErrorType::RuntimeError,
                    String::from_str("Invalid header encoding"),
                ));
            },
        };
        let value = match string_from_utf8(pieces[k + 1].as_slice()) {
            Some(s) => s,
            None => {
                proof {
                    if scgi_pairs(allp) is Some {
                        let ps = scgi_pairs(allp).unwrap();
                        assert(scgi_pairs(rest).unwrap()[0] == pair);
                        assert(ps[done.len() as int] == pair);
                        assert(!pairs_utf8_ok(ps));
                    }
                }
                return Err(GemError::new(
                    GemErrorType::RuntimeError,
                    String::from_str("Invalid header encoding"),
                ));
            },
        };
        m.insert(key, value);
        proof {
            let newdone = done.push(pair);
            assert(newdone.drop_last() =~= done);
            assert(map_of_pairs(newdone) == map_of_pairs(done).insert(
                decode_utf8(pair.0),
                decode_utf8(pair.1),
            ));
            if scgi_pairs(allp) is Some {
                let ps = scgi_pairs(allp).unwrap();
                assert(ps =~= newdone + scgi_pairs(allp.skip(k + 2)).unwrap()) by {
                    assert(ps == done + scgi_pairs(rest).unwrap());
                    assert(scgi_pairs(rest).unwrap() == seq![pair] + scgi_pairs(
                        rest.skip(2),
                    ).unwrap());
                }
            }
            done = newdone;
        }
        k = k + 2;
    }
}

/// The response either driver sends when the raw fields of a request cannot
/// be read or do not form a request.
pub fn framing_error_response() -> (r: Response)
    ensures
        r.code == 42,
        r.meta@ == "Invalid CGI header"@,
        r.body is None,
{
    Response::error_cgi("Invalid CGI header")
}

/// The driver core both conventions share: build the canonical request from
/// the raw fields, dispatch it, and map any failure onto its canonical
/// response. The second component is the diagnostic to log on the side
/// channel, kept out of the response stream.
///
/// Fields that do not form a request yield the fixed internal-error
/// response; a path no route matches yields the canonical not-found
/// response; a handler's error is mapped through its own canonical
/// response.
pub fn respond<T: Route>(app: &RoutedApp<T>, vars: &VarMap) -> (r: (Response, Option<String>))
    ensures
        !request_vars_ok(vars@) ==> r.0.code == 42 && r.0.meta@ == "Invalid CGI header"@
            && r.0.body is None && r.1 is Some,
        request_vars_ok(vars@) && !route_found(app@, vars@["PATH_INFO"@]) ==> r.0.code == 51
            && r.0.meta@ == "Path not found"@ && r.0.body is None,
{
    match Request::parse_request(vars) {
        Ok(req) => {
            match crate::application::Application::handle_request(app, req) {
                Ok(resp) => (resp, None),
                Err(e) => {
                    let log = e.message();
                    (e.to_response(), Some(log))
                },
            }
        },
        Err(e) => (framing_error_response(), Some(e.message())),
    }
}

/// The persistent-socket driver's decisions for one connection, after the
/// length-prefixed block has been read: parse the block's fields and
/// [respond] to them. A malformed block yields the fixed internal-error
/// response. The second component is the diagnostic to log.
pub fn scgi_respond<T: Route>(app: &RoutedApp<T>, payload: &Vec<u8>) -> (r: (
    Response,
    Option<String>,
))
    ensures
        !scgi_ok(payload@) ==> r.0.code == 42 && r.0.meta@ == "Invalid CGI header"@
            && r.0.body is None && r.1 is Some,
        scgi_ok(payload@) && !request_vars_ok(scgi_map(payload@)) ==> r.0.code == 42
            && r.0.meta@ == "Invalid CGI header"@ && r.0.body is None && r.1 is Some,
        scgi_ok(payload@) && request_vars_ok(scgi_map(payload@)) && !route_found(
            app@,
            scgi_map(payload@)["PATH_INFO"@],
        ) ==> r.0.code == 51 && r.0.meta@ == "Path not found"@ && r.0.body is None,
{
    match parse_scgi_headers(payload) {
        Ok(vars) => respond(app, &vars),
        Err(e) => (framing_error_response(), Some(e.message())),
    }
}

} // verus!
