//! Small shared constants of the browser session.
pub mod captcha;
pub mod session;
