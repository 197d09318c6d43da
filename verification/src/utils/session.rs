//! The persistent browser session.
use vstd::prelude::*;

verus! {

/// The Chrome profile directory that holds the HH.ru login state when none is
/// configured.
pub const SESSION_PROFILE_DIR: &'static str = "browser_profile";

} // verus!
