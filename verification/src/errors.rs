//! Service errors, their HTTP status codes and their messages.
use vstd::prelude::*;

use crate::text::owned;

verus! {

/// An error of the search, apply or login flows.
#[derive(Debug, Clone, PartialEq, Eq)]
pub enum AppError {
    EmptyQuery,
    InvalidPage,
    SessionMissing,
    CaptchaDetected,
    Timeout,
    /// ChromeDriver did not answer at the given address.
    DriverUnavailable(String),
    /// Chrome refused to start because the profile directory is locked.
    ProfileInUse(String),
    /// Any other WebDriver failure, with its message.
    Browser(String),
    /// A local failure, with its message.
    Internal(String),
}

/// The body of an error response.
#[derive(Debug, Clone, PartialEq, Eq)]
pub struct ErrorResponse {
    pub detail: String,
}

/// The HTTP status code of each error: 400 for invalid input, 409 for a
/// profile in use, 502 for ChromeDriver/browser failures, 503 for a CAPTCHA,
/// 504 for a timeout, 500 otherwise.
pub open spec fn error_status(e: AppError) -> u16 {
    match e {
        AppError::EmptyQuery | AppError::InvalidPage => 400,
        AppError::SessionMissing | AppError::Internal(_) => 500,
        AppError::CaptchaDetected => 503,
        AppError::Timeout => 504,
        AppError::DriverUnavailable(_) => 502,
        AppError::ProfileInUse(_) => 409,
        AppError::Browser(_) => 502,
    }
}

/// The human-readable message of each error.
pub open spec fn error_message(e: AppError) -> Seq<char> {
    match e {
        AppError::EmptyQuery => "query must not be empty"@,
        AppError::InvalidPage => "page must be greater than zero"@,
        AppError::SessionMissing => "session is missing"@,
        AppError::CaptchaDetected => "captcha detected"@,
        AppError::Timeout => "request timed out"@,
        AppError::DriverUnavailable(url) => "ChromeDriver is not reachable at "@ + url@
            + ". Start ChromeDriver first, for example: chromedriver --port=9515"@,
        AppError::ProfileInUse(dir) => "browser profile is already in use: "@ + dir@
            + ". Close Chrome windows using this profile, or set BROWSER_PROFILE_DIR to a different directory"@,
        AppError::Browser(msg) => "browser error: "@ + msg@,
        AppError::Internal(msg) => "internal error: "@ + msg@,
    }
}

fn prefixed(prefix: &str, rest: &String) -> (r: String)
    ensures
        r@ == prefix@ + rest@,
{
    let mut s = owned(prefix);
    s.append(rest.as_str());
    s
}

fn message_with(prefix: &str, middle: &String, suffix: &str) -> (r: String)
    ensures
        r@ == prefix@ + middle@ + suffix@,
{
    let mut s = owned(prefix);
    s.append(middle.as_str());
    s.append(suffix);
    s
}

impl AppError {
    /// The HTTP status code that answers this error.
    pub fn status_code(&self) -> (r: u16)
        ensures
            r == error_status(*self),
    {
        match self {
            AppError::EmptyQuery | AppError::InvalidPage => 400,
            AppError::SessionMissing | AppError::Internal(_) => 500,
            AppError::CaptchaDetected => 503,
            AppError::Timeout => 504,
            AppError::DriverUnavailable(_) => 502,
            AppError::ProfileInUse(_) => 409,
            AppError::Browser(_) => 502,
        }
    }

    /// The message of this error, as shown in the `detail` field.
    pub fn to_string(&self) -> (r: String)
        ensures
            r@ == error_message(*self),
    {
        match self {
            AppError::EmptyQuery => owned("query must not be empty"),
            AppError::InvalidPage => owned("page must be greater than zero"),
            AppError::SessionMissing => owned("session is missing"),
            AppError::CaptchaDetected => owned("captcha detected"),
            AppError::Timeout => owned("request timed out"),
            AppError::DriverUnavailable(url) => message_with(
                "ChromeDriver is not reachable at ",
                url,
                ". Start ChromeDriver first, for example: chromedriver --port=9515",
            ),
            AppError::ProfileInUse(dir) => message_with(
                "browser profile is already in use: ",
                dir,
                ". Close Chrome windows using this profile, or set BROWSER_PROFILE_DIR to a different directory",
            ),
            AppError::Browser(msg) => prefixed("browser error: ", msg),
            AppError::Internal(msg) => prefixed("internal error: ", msg),
        }
    }

    /// The status code and body of the HTTP response for this error.
    pub fn into_response_parts(self) -> (r: (u16, ErrorResponse))
        ensures
            r.0 == error_status(self),
            r.1.detail@ == error_message(self),
    {
        let status = self.status_code();
        let detail = self.to_string();
        (status, ErrorResponse { detail })
    }
}

/// Every error is answered with a client or server error status and a
/// non-empty `detail` message.
pub proof fn law_error_response_well_formed(e: AppError)
    ensures
        400 <= error_status(e) <= 599,
        error_message(e).len() > 0,
{
    reveal_strlit("query must not be empty");
    reveal_strlit("page must be greater than zero");
    reveal_strlit("session is missing");
    reveal_strlit("captcha detected");
    reveal_strlit("request timed out");
    reveal_strlit("ChromeDriver is not reachable at ");
    reveal_strlit("browser profile is already in use: ");
    reveal_strlit("browser error: ");
    reveal_strlit("internal error: ");
}

/// The status codes the API answers with: 400 for invalid input, 409 for a
/// browser profile already in use, 502 for ChromeDriver or browser failures,
/// 503 for a CAPTCHA, 504 for a page timeout, and 500 otherwise; a CAPTCHA is
/// reported as `captcha detected`.
pub proof fn law_error_status_codes(url: String, dir: String, msg: String)
    ensures
        error_status(AppError::EmptyQuery) == 400,
        error_status(AppError::InvalidPage) == 400,
        error_status(AppError::ProfileInUse(dir)) == 409,
        error_status(AppError::DriverUnavailable(url)) == 502,
        error_status(AppError::Browser(msg)) == 502,
        error_status(AppError::CaptchaDetected) == 503,
        error_status(AppError::Timeout) == 504,
        error_status(AppError::SessionMissing) == 500,
        error_status(AppError::Internal(msg)) == 500,
        error_message(AppError::CaptchaDetected) == "captcha detected"@,
        error_message(AppError::Browser(msg)) == "browser error: "@ + msg@,
{
}

} // verus!
