use gemfra::error::GemError;
use gemfra::error::GemErrorType;
use gemfra::error::ToGemError;

#[test]
fn test_result_into_gem() {
    let ok: Result<u32, String> = Ok(7);
    assert_eq!(ok.into_gem().unwrap(), 7);

    let failed: Result<u32, String> = Err("disk on fire".to_string());
    let err = failed.into_gem().expect_err("Expected Error");
    assert_eq!(err.error_type, GemErrorType::RuntimeError);
    assert_eq!(err.message(), "disk on fire");
}

#[test]
fn test_result_into_gem_type() {
    let failed: Result<u32, String> = Err("nothing there".to_string());
    let err = failed
        .into_gem_type(GemErrorType::NotFound)
        .expect_err("Expected Error");
    assert_eq!(err.error_type, GemErrorType::NotFound);
    assert_eq!(err.message(), "nothing there");
}

#[test]
fn test_result_replace_gem() {
    let failed: Result<u32, String> = Err("inner detail".to_string());
    let err = failed
        .replace_gem(GemErrorType::Gone, "The file doesn't exist".to_string())
        .expect_err("Expected Error");
    assert_eq!(err.error_type, GemErrorType::Gone);
    assert_eq!(err.message(), "The file doesn't exist");
}

#[test]
fn test_option_into_gem() {
    let some: Option<u32> = Some(3);
    assert_eq!(some.into_gem().unwrap(), 3);

    let none: Option<u32> = None;
    let err = none.into_gem().expect_err("Expected Error");
    assert_eq!(err.error_type, GemErrorType::RuntimeError);
    assert_eq!(err.message(), "Cannot be None");

    let none: Option<u32> = None;
    let err = none
        .into_gem_type(GemErrorType::CertNeeded)
        .expect_err("Expected Error");
    assert_eq!(err.error_type, GemErrorType::CertNeeded);

    let none: Option<u32> = None;
    let err = none
        .replace_gem(GemErrorType::BadRequest, "say what?".to_string())
        .expect_err("Expected Error");
    assert_eq!(err.error_type, GemErrorType::BadRequest);
    assert_eq!(err.message(), "say what?");
}

#[test]
fn test_map() {
    let ok: Result<u32, String> = Ok(9);
    assert_eq!(GemError::map(GemErrorType::ProxyError, ok).unwrap(), 9);

    let failed: Result<u32, String> = Err("upstream gone".to_string());
    let err = GemError::map(GemErrorType::ProxyError, failed).expect_err("Expected Error");
    assert_eq!(err.error_type, GemErrorType::ProxyError);
    assert_eq!(err.message(), "upstream gone");
    // a wrapped failure keeps the kind's canonical text on the wire
    assert_eq!(err.to_response().header(), "43 Proxy Error\r\n");
}

#[test]
fn test_kind_text() {
    assert_eq!(GemErrorType::TempError.text(), "Temporary Error");
    assert_eq!(GemErrorType::PermError.text(), "Permanent Error");
    assert_eq!(GemErrorType::Unavailable.text(), "Server Unavailable");
    assert_eq!(GemErrorType::RuntimeError.text(), "Internal Server Error");
    assert_eq!(GemErrorType::ProxyError.text(), "Proxy Error");
    assert_eq!(GemErrorType::TooManyRequests.text(), "10");
    assert_eq!(GemErrorType::NotFound.text(), "File not found");
    assert_eq!(GemErrorType::Gone.text(), "File no longer exists");
    assert_eq!(GemErrorType::ProxyRefused.text(), "Proxies are not allowed");
    assert_eq!(GemErrorType::BadRequest.text(), "Invalid Request");
    assert_eq!(GemErrorType::CertNeeded.text(), "Certificate needed");
    assert_eq!(GemErrorType::CertUnAuthorised.text(), "Certificate not Authorised");
    assert_eq!(GemErrorType::BadCert.text(), "Invalid Certificate");
}
