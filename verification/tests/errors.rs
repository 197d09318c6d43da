use rusthunter::errors::AppError;

#[test]
fn status_codes_follow_the_documented_table() {
    assert_eq!(AppError::EmptyQuery.status_code(), 400);
    assert_eq!(AppError::InvalidPage.status_code(), 400);
    assert_eq!(AppError::ProfileInUse("p".to_owned()).status_code(), 409);
    assert_eq!(AppError::DriverUnavailable("u".to_owned()).status_code(), 502);
    assert_eq!(AppError::Browser("b".to_owned()).status_code(), 502);
    assert_eq!(AppError::CaptchaDetected.status_code(), 503);
    assert_eq!(AppError::Timeout.status_code(), 504);
    assert_eq!(AppError::SessionMissing.status_code(), 500);
    assert_eq!(AppError::Internal("i".to_owned()).status_code(), 500);
}

#[test]
fn error_messages() {
    assert_eq!(AppError::EmptyQuery.to_string(), "query must not be empty");
    assert_eq!(AppError::InvalidPage.to_string(), "page must be greater than zero");
    assert_eq!(AppError::SessionMissing.to_string(), "session is missing");
    assert_eq!(AppError::CaptchaDetected.to_string(), "captcha detected");
    assert_eq!(AppError::Timeout.to_string(), "request timed out");
    assert_eq!(
        AppError::DriverUnavailable("http://localhost:9515".to_owned()).to_string(),
        "ChromeDriver is not reachable at http://localhost:9515. Start ChromeDriver first, for example: chromedriver --port=9515"
    );
    assert_eq!(
        AppError::ProfileInUse("browser_profile".to_owned()).to_string(),
        "browser profile is already in use: browser_profile. Close Chrome windows using this profile, or set BROWSER_PROFILE_DIR to a different directory"
    );
    assert_eq!(AppError::Browser("x".to_owned()).to_string(), "browser error: x");
    assert_eq!(AppError::Internal("y".to_owned()).to_string(), "internal error: y");
}

#[test]
fn error_response_parts() {
    let (status, body) = AppError::CaptchaDetected.into_response_parts();
    assert_eq!(status, 503);
    assert_eq!(body.detail, "captcha detected");
}
