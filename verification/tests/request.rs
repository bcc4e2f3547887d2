use gemfra::error::GemErrorType;
use gemfra::request::parse_client_name;
use gemfra::request::Request;
use gemfra::varmap::VarMap;

fn base_vars() -> VarMap {
    let mut vars = VarMap::new();
    vars.insert("PATH_INFO".to_string(), "/hello".to_string());
    vars.insert("SCRIPT_NAME".to_string(), "/app".to_string());
    vars.insert("SERVER_NAME".to_string(), "example.org".to_string());
    vars.insert("QUERY_STRING".to_string(), "q=1&x=%20".to_string());
    vars.insert("SERVER_PORT".to_string(), "1965".to_string());
    vars.insert(
        "GEMINI_URL".to_string(),
        "gemini://example.org/app/hello?q=1&x=%20".to_string(),
    );
    vars.insert("REMOTE_ADDR".to_string(), "192.0.2.7".to_string());
    vars.insert("REMOTE_HOST".to_string(), "client.example.net".to_string());
    vars.insert("SERVER_PROTOCOL".to_string(), "GEMINI".to_string());
    vars
}

fn cert_vars() -> VarMap {
    let mut vars = base_vars();
    vars.insert("AUTH_TYPE".to_string(), "CERTIFICATE".to_string());
    vars.insert("TLS_CLIENT_HASH".to_string(), "SHA256:abcdef".to_string());
    vars.insert("TLS_CLIENT_ISSUER".to_string(), "CN=authority".to_string());
    vars.insert(
        "TLS_CLIENT_SUBJECT".to_string(),
        "CN=foobar,OU=cheese".to_string(),
    );
    vars.insert(
        "TLS_CLIENT_NOT_AFTER".to_string(),
        "2024-01-01T00:00:00Z".to_string(),
    );
    vars.insert(
        "TLS_CLIENT_NOT_BEFORE".to_string(),
        "2023-01-01T00:00:00+01:00".to_string(),
    );
    vars
}

#[test]
fn test_client_name_parse() {
    let parsed = parse_client_name("CN=foobar").unwrap();
    assert_eq!(parsed.get("CN").unwrap(), "foobar");

    let parsed = parse_client_name("CN=foobar,OU=cheese").unwrap();
    assert_eq!(parsed.get("CN").unwrap(), "foobar");
    assert_eq!(parsed.get("OU").unwrap(), "cheese");

    let err = parse_client_name("CN").expect_err("Expected Error");
    assert_eq!(err.error_type, GemErrorType::BadCert);
}

#[test]
fn test_client_name_empty_and_duplicates() {
    let err = parse_client_name("").expect_err("Expected Error");
    assert_eq!(err.error_type, GemErrorType::BadCert);

    let parsed = parse_client_name("CN=a,CN=b").unwrap();
    assert_eq!(parsed.get("CN").unwrap(), "b");

    let parsed = parse_client_name("CN=").unwrap();
    assert_eq!(parsed.get("CN").unwrap(), "");
}

#[test]
fn test_request_round_trip() {
    let request = Request::parse_request(&base_vars()).unwrap();
    assert_eq!(request.path, "/hello");
    assert_eq!(request.script, "/app");
    assert_eq!(request.server_name, "example.org");
    assert_eq!(request.query, "q=1&x=%20");
    assert_eq!(request.server_port, 1965u16);
    assert_eq!(request.url, "gemini://example.org/app/hello?q=1&x=%20");
    assert_eq!(request.remote_addr, "192.0.2.7");
    assert_eq!(request.remote_host, "client.example.net");
    assert_eq!(request.protocol, "GEMINI");
    assert!(request.client_cert.is_none());
}

#[test]
fn test_missing_variable() {
    let mut vars = VarMap::new();
    vars.insert("PATH_INFO".to_string(), "/hello".to_string());
    let err = Request::parse_request(&vars).expect_err("Expected Error");
    assert_eq!(err.error_type, GemErrorType::RuntimeError);
}

#[test]
fn test_bad_port() {
    let mut vars = base_vars();
    vars.insert("SERVER_PORT".to_string(), "196500".to_string());
    let err = Request::parse_request(&vars).expect_err("Expected Error");
    assert_eq!(err.error_type, GemErrorType::RuntimeError);

    let mut vars = base_vars();
    vars.insert("SERVER_PORT".to_string(), "gemini".to_string());
    let err = Request::parse_request(&vars).expect_err("Expected Error");
    assert_eq!(err.error_type, GemErrorType::RuntimeError);
}

#[test]
fn test_cert_presence() {
    // no AUTH_TYPE: no certificate
    let request = Request::parse_request(&base_vars()).unwrap();
    assert!(request.client_cert.is_none());

    // another auth type: no certificate
    let mut vars = base_vars();
    vars.insert("AUTH_TYPE".to_string(), "PASSWORD".to_string());
    let request = Request::parse_request(&vars).unwrap();
    assert!(request.client_cert.is_none());

    // the certificate-signifying value: a certificate
    let request = Request::parse_request(&cert_vars()).unwrap();
    assert!(request.client_cert.is_some());
}

#[test]
fn test_cert_fields() {
    let request = Request::parse_request(&cert_vars()).unwrap();
    let cert = request.client_cert.unwrap();
    assert_eq!(cert.hash, "SHA256:abcdef");
    assert_eq!(cert.issuer.get("CN").unwrap(), "authority");
    assert_eq!(cert.subject.get("CN").unwrap(), "foobar");
    assert_eq!(cert.subject.get("OU").unwrap(), "cheese");
    // 2024-01-01T00:00:00Z
    assert_eq!(cert.not_after.unix_seconds, 1704067200);
    assert_eq!(cert.not_after.subsec_nanos, 0);
    assert_eq!(cert.not_after.offset_seconds, 0);
    // 2023-01-01T00:00:00+01:00
    assert_eq!(cert.not_before.unix_seconds, 1672527600);
    assert_eq!(cert.not_before.offset_seconds, 3600);
}

#[test]
fn test_cert_bad_timestamp() {
    let mut vars = cert_vars();
    vars.insert("TLS_CLIENT_NOT_AFTER".to_string(), "yesterday".to_string());
    let err = Request::parse_request(&vars).expect_err("Expected Error");
    assert_eq!(err.error_type, GemErrorType::BadCert);
}

#[test]
fn test_cert_bad_name() {
    let mut vars = cert_vars();
    vars.insert("TLS_CLIENT_SUBJECT".to_string(), "CN".to_string());
    let err = Request::parse_request(&vars).expect_err("Expected Error");
    assert_eq!(err.error_type, GemErrorType::BadCert);
}

#[test]
fn test_cert_missing_field() {
    let mut vars = base_vars();
    vars.insert("AUTH_TYPE".to_string(), "CERTIFICATE".to_string());
    let err = Request::parse_request(&vars).expect_err("Expected Error");
    assert_eq!(err.error_type, GemErrorType::RuntimeError);
}
