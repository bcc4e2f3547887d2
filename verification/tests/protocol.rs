use gemfra::error::GemError;
use gemfra::error::GemErrorType;
use gemfra::protocol::framing_error_response;
use gemfra::protocol::parse_scgi_headers;
use gemfra::protocol::parse_scgi_length;
use gemfra::protocol::respond;
use gemfra::protocol::scgi_respond;
use gemfra::request::Request;
use gemfra::response::Response;
use gemfra::application::Application;
use gemfra::routed::Route;
use gemfra::routed::RoutedApp;
use gemfra::varmap::VarMap;

enum Page {
    Hello,
    Vars,
    Limited,
}

impl Route for Page {
    fn endpoint(&self) -> &str {
        match self {
            Page::Hello => "/hello",
            Page::Vars => "/vars/:var",
            Page::Limited => "/limited",
        }
    }

    fn handle(&self, params: &VarMap, _request: Request) -> Result<Response, GemError> {
        match self {
            Page::Hello => Ok(Response::success("text/gemini", "# Hello World!")),
            Page::Vars => {
                let var = params.get("var").unwrap();
                Ok(Response::success("text/gemini", &format!("You've found {var}")))
            },
            Page::Limited => Err(GemError::too_many_requests(30)),
        }
    }
}

fn test_app() -> RoutedApp<Page> {
    let mut app = RoutedApp::new();
    app.register(Page::Hello);
    app.register(Page::Vars);
    app.register(Page::Limited);
    app
}

fn vars_for(path: &str) -> VarMap {
    let mut vars = VarMap::new();
    vars.insert("PATH_INFO".to_string(), path.to_string());
    vars.insert("SCRIPT_NAME".to_string(), "/app".to_string());
    vars.insert("SERVER_NAME".to_string(), "example.org".to_string());
    vars.insert("QUERY_STRING".to_string(), "".to_string());
    vars.insert("SERVER_PORT".to_string(), "1965".to_string());
    vars.insert("GEMINI_URL".to_string(), format!("gemini://example.org/app{path}"));
    vars.insert("REMOTE_ADDR".to_string(), "192.0.2.7".to_string());
    vars.insert("REMOTE_HOST".to_string(), "192.0.2.7".to_string());
    vars.insert("SERVER_PROTOCOL".to_string(), "GEMINI".to_string());
    vars
}

fn scgi_payload(pairs: &[(&str, &str)]) -> Vec<u8> {
    let mut out = Vec::new();
    for (k, v) in pairs {
        out.extend_from_slice(k.as_bytes());
        out.push(0);
        out.extend_from_slice(v.as_bytes());
        out.push(0);
    }
    out
}

fn scgi_vars_for(path: &str) -> Vec<u8> {
    let url = format!("gemini://example.org/app{path}");
    scgi_payload(&[
        ("PATH_INFO", path),
        ("SCRIPT_NAME", "/app"),
        ("SERVER_NAME", "example.org"),
        ("QUERY_STRING", ""),
        ("SERVER_PORT", "1965"),
        ("GEMINI_URL", &url),
        ("REMOTE_ADDR", "192.0.2.7"),
        ("REMOTE_HOST", "192.0.2.7"),
        ("SERVER_PROTOCOL", "GEMINI"),
    ])
}

fn wire(response: Response) -> Vec<u8> {
    let mut out = Vec::new();
    response.serialize(&mut out);
    out
}

#[test]
fn test_cgi_not_found() {
    let app = test_app();
    let (response, _log) = respond(&app, &vars_for("/nope"));
    assert_eq!(wire(response), b"51 Path not found\r\n");
}

#[test]
fn test_scgi_not_found() {
    let app = test_app();
    let payload = scgi_vars_for("/nope");
    let (response, _log) = scgi_respond(&app, &payload);
    assert_eq!(wire(response), b"51 Path not found\r\n");
}

#[test]
fn test_cgi_success() {
    let app = test_app();
    let (response, log) = respond(&app, &vars_for("/hello"));
    assert!(log.is_none());
    assert_eq!(wire(response), b"20 text/gemini\r\n# Hello World!");
}

#[test]
fn test_cgi_route_params() {
    let app = test_app();
    let (response, _log) = respond(&app, &vars_for("/vars/hello"));
    assert_eq!(wire(response), b"20 text/gemini\r\nYou've found hello");
}

#[test]
fn test_scgi_success() {
    let app = test_app();
    let payload = scgi_vars_for("/vars/cheese");
    let (response, _log) = scgi_respond(&app, &payload);
    assert_eq!(wire(response), b"20 text/gemini\r\nYou've found cheese");
}

#[test]
fn test_handler_error_maps_to_response() {
    let app = test_app();
    let (response, log) = respond(&app, &vars_for("/limited"));
    assert!(log.is_some());
    assert_eq!(wire(response), b"44 30\r\n");
}

#[test]
fn test_cgi_bad_vars() {
    let app = test_app();
    let vars = VarMap::new();
    let (response, log) = respond(&app, &vars);
    assert!(log.is_some());
    assert_eq!(wire(response), b"42 Invalid CGI header\r\n");
}

#[test]
fn test_scgi_length() {
    assert_eq!(parse_scgi_length(&b"123".to_vec()).unwrap(), 123);
    assert_eq!(parse_scgi_length(&b"+7".to_vec()).unwrap(), 7);
    assert_eq!(parse_scgi_length(&b"0".to_vec()).unwrap(), 0);

    let err = parse_scgi_length(&b"12a".to_vec()).expect_err("Expected Error");
    assert_eq!(err.error_type, GemErrorType::RuntimeError);
    assert!(parse_scgi_length(&b"".to_vec()).is_err());
    assert!(parse_scgi_length(&b"12 ".to_vec()).is_err());
    assert!(parse_scgi_length(&b"-3".to_vec()).is_err());
}

#[test]
fn test_malformed_length_prefix_aborts() {
    // the persistent-socket driver answers an unreadable length prefix
    // with the fixed internal-error response
    let err = parse_scgi_length(&b"12a".to_vec()).expect_err("Expected Error");
    assert_eq!(err.error_type, GemErrorType::RuntimeError);
    assert_eq!(wire(framing_error_response()), b"42 Invalid CGI header\r\n");
}

#[test]
fn test_scgi_headers() {
    let payload = scgi_payload(&[("A", "B"), ("C", "D")]);
    let vars = parse_scgi_headers(&payload).unwrap();
    assert_eq!(vars.get("A").unwrap(), "B");
    assert_eq!(vars.get("C").unwrap(), "D");
    assert!(vars.get("E").is_none());

    let vars = parse_scgi_headers(&Vec::new()).unwrap();
    assert!(vars.get("A").is_none());
}

#[test]
fn test_scgi_headers_missing_value() {
    // a key with no value is a framing error
    let err = parse_scgi_headers(&b"KEY".to_vec()).expect_err("Expected Error");
    assert_eq!(err.error_type, GemErrorType::RuntimeError);

    let err = parse_scgi_headers(&b"A\0B\0C".to_vec()).expect_err("Expected Error");
    assert_eq!(err.error_type, GemErrorType::RuntimeError);
}

#[test]
fn test_scgi_malformed_block() {
    let app = test_app();
    let (response, log) = scgi_respond(&app, &b"NOVALUE".to_vec());
    assert!(log.is_some());
    assert_eq!(wire(response), b"42 Invalid CGI header\r\n");
}

struct EchoHandler;

impl gemfra::simple::Handler for EchoHandler {
    fn handle(&self, request: Request) -> Result<Response, GemError> {
        Ok(Response::success("text/gemini", &format!("You asked for {}", request.path)))
    }
}

#[test]
fn test_simple_app() {
    let app = gemfra::simple::SimpleApp::new(EchoHandler);
    let request = Request::parse_request(&vars_for("/anything")).unwrap();
    let response = app.handle_request(request).unwrap();
    assert_eq!(wire(response), b"20 text/gemini\r\nYou asked for /anything");
}
