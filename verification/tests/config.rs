use rusthunter::config::{
    default_area_code, default_browser_driver_url, default_browser_headless,
    default_browser_profile_dir, default_hh_locale, default_items_per_page,
    default_page_timeout, default_server_host, default_server_port, HostAddr,
};

#[test]
fn configuration_defaults() {
    assert!(!default_browser_headless());
    assert_eq!(default_browser_driver_url(), "http://localhost:9515");
    assert_eq!(default_browser_profile_dir(), "browser_profile");
    assert_eq!(default_area_code(), 113);
    assert_eq!(default_items_per_page(), 20);
    assert_eq!(default_page_timeout(), 30_000);
    assert_eq!(default_hh_locale(), "EN");
    assert_eq!(default_server_host(), HostAddr::V4(127, 0, 0, 1));
    assert_eq!(default_server_port(), 3000);
}
