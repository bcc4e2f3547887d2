use gemfra::error::GemError;
use gemfra::error::GemErrorType;
use gemfra::response::Response;

#[test]
fn test_success_serialize() {
    let response = Response::success("text/gemini", "hi");
    let mut out: Vec<u8> = Vec::new();
    response.serialize(&mut out);
    assert_eq!(out, b"20 text/gemini\r\nhi");
}

#[test]
fn test_bodyless_serialize() {
    let response = Response::not_found("Path not found");
    let mut out: Vec<u8> = Vec::new();
    response.serialize(&mut out);
    assert_eq!(out, b"51 Path not found\r\n");
}

#[test]
fn test_header() {
    assert_eq!(Response::input("Name?").header(), "10 Name?\r\n");
    assert_eq!(Response::input_sensitive("Password?").header(), "11 Password?\r\n");
    assert_eq!(Response::redirect("/new").header(), "30 /new\r\n");
    assert_eq!(Response::redirect_perm("/new").header(), "31 /new\r\n");
    assert_eq!(Response::error_temp("later").header(), "40 later\r\n");
    assert_eq!(Response::unavailable("down").header(), "41 down\r\n");
    assert_eq!(Response::error_cgi("oops").header(), "42 oops\r\n");
    assert_eq!(Response::error_proxy("no").header(), "43 no\r\n");
    assert_eq!(Response::slow_down(30).header(), "44 30\r\n");
    assert_eq!(Response::error_perm("never").header(), "50 never\r\n");
    assert_eq!(Response::not_found("gone?").header(), "51 gone?\r\n");
    assert_eq!(Response::gone("gone").header(), "52 gone\r\n");
    assert_eq!(Response::proxy_refused("no proxy").header(), "53 no proxy\r\n");
    assert_eq!(Response::bad_request("what").header(), "59 what\r\n");
    assert_eq!(Response::cert_required("cert").header(), "60 cert\r\n");
    assert_eq!(Response::cert_not_authorised("не дозволено").header(), "61 не дозволено\r\n");
    assert_eq!(Response::cert_not_valid("bad cert").header(), "62 bad cert\r\n");
}

#[test]
fn test_body_replaces() {
    let response = Response::new(20, "text/gemini")
        .body(b"first".to_vec())
        .body(b"second".to_vec());
    let mut out: Vec<u8> = Vec::new();
    response.serialize(&mut out);
    assert_eq!(out, b"20 text/gemini\r\nsecond");
}

#[test]
fn test_too_many_requests() {
    // the canonical rate-limit response carries the wait in seconds
    let response = GemError::too_many_requests(30).to_response();
    let mut out: Vec<u8> = Vec::new();
    response.serialize(&mut out);
    assert_eq!(out, b"44 30\r\n");

    // parsing the metadata back recovers the number
    let response = GemError::too_many_requests(30).to_response();
    assert_eq!(response.meta.parse::<u32>().unwrap(), 30);

    // an unparseable wait substitutes the fixed default
    let err = GemError::new(GemErrorType::TooManyRequests, "soon".to_string());
    let response = err.to_response();
    assert_eq!(response.header(), "44 10\r\n");
}

#[test]
fn test_error_responses() {
    let response = GemError::not_found("nothing here".to_string()).to_response();
    assert_eq!(response.header(), "51 nothing here\r\n");

    let response = GemError::temp_error("later".to_string()).to_response();
    assert_eq!(response.header(), "40 later\r\n");

    let response = GemError::perm_error("never".to_string()).to_response();
    assert_eq!(response.header(), "50 never\r\n");

    let response = GemError::unavailable("down".to_string()).to_response();
    assert_eq!(response.header(), "41 down\r\n");

    let response = GemError::runtime_error("broke".to_string()).to_response();
    assert_eq!(response.header(), "42 broke\r\n");

    let response = GemError::proxy_error("no".to_string()).to_response();
    assert_eq!(response.header(), "43 no\r\n");

    let response = GemError::gone("gone".to_string()).to_response();
    assert_eq!(response.header(), "52 gone\r\n");

    let response = GemError::proxy_refused("refused".to_string()).to_response();
    assert_eq!(response.header(), "53 refused\r\n");

    let response = GemError::bad_request("bad".to_string()).to_response();
    assert_eq!(response.header(), "59 bad\r\n");

    let response = GemError::cert_needed("need cert".to_string()).to_response();
    assert_eq!(response.header(), "60 need cert\r\n");

    let response = GemError::cert_unauthorised("not yours".to_string()).to_response();
    assert_eq!(response.header(), "61 not yours\r\n");

    let response = GemError::bad_cert("invalid".to_string()).to_response();
    assert_eq!(response.header(), "62 invalid\r\n");
}

#[test]
fn test_wrapped_error_uses_canonical_text() {
    // a wrapped failure's response shows the kind's canonical text,
    // not the underlying description
    let err = GemError::from_err(GemErrorType::RuntimeError, "io broke".to_string());
    assert_eq!(err.message(), "io broke");
    let response = err.to_response();
    assert_eq!(response.header(), "42 Internal Server Error\r\n");
}
