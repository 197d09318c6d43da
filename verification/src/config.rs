//! Service configuration and its default values.
use vstd::prelude::*;

use crate::text::owned;
use crate::utils::session::SESSION_PROFILE_DIR;

verus! {

/// An IP address for the API listener.
#[derive(Debug, Clone, Copy, PartialEq, Eq)]
pub enum HostAddr {
    /// An IPv4 address by its four octets.
    V4(u8, u8, u8, u8),
    /// An IPv6 address by its eight 16-bit segments.
    V6([u16; 8]),
}

/// The service configuration, read from the environment (`BROWSER_HEADLESS`,
/// `BROWSER_DRIVER_URL`, ...), each field falling back to its default.
#[derive(Debug, Clone)]
pub struct AppConfig {
    pub browser_headless: bool,
    pub browser_driver_url: String,
    pub browser_profile_dir: String,
    pub area_code: u32,
    pub items_per_page: u32,
    pub page_timeout: u64,
    pub hh_locale: String,
    pub server_host: HostAddr,
    pub server_port: u16,
}

/// Chrome runs with a visible window unless configured otherwise.
pub fn default_browser_headless() -> (r: bool)
    ensures
        r == false,
{
    false
}

/// ChromeDriver's default local address.
pub fn default_browser_driver_url() -> (r: String)
    ensures
        r@ == "http://localhost:9515"@,
{
    owned("http://localhost:9515")
}

/// The session profile directory.
pub fn default_browser_profile_dir() -> (r: String)
    ensures
        r@ == SESSION_PROFILE_DIR@,
{
    owned(SESSION_PROFILE_DIR)
}

/// HH.ru area code 113 (Russia).
pub fn default_area_code() -> (r: u32)
    ensures
        r == 113,
{
    113
}

/// Twenty results per search page.
pub fn default_items_per_page() -> (r: u32)
    ensures
        r == 20,
{
    20
}

/// Page timeout of thirty seconds, in milliseconds.
pub fn default_page_timeout() -> (r: u64)
    ensures
        r == 30_000,
{
    30_000
}

/// HH.ru interface locale.
pub fn default_hh_locale() -> (r: String)
    ensures
        r@ == "EN"@,
{
    owned("EN")
}

/// The API listens on the loopback address.
pub fn default_server_host() -> (r: HostAddr)
    ensures
        r == HostAddr::V4(127, 0, 0, 1),
{
    HostAddr::V4(127, 0, 0, 1)
}

/// The API listens on port 3000.
pub fn default_server_port() -> (r: u16)
    ensures
        r == 3000,
{
    3000
}

} // verus!
