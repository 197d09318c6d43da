//! Anti-bot handling.
use vstd::prelude::*;

verus! {

/// File name of the screenshot taken when a CAPTCHA is detected; it is written
/// to the `screenshots` directory of the browser profile.
pub const CAPTCHA_SCREENSHOT_FILE: &'static str = "captcha_debug.png";

} // verus!
