use rusthunter::text::{collapse_whitespace_str, str_contains, str_starts_with, strip_trailing_str, trim_str};
use rusthunter::config::{AppConfig, HostAddr};
use rusthunter::services::job_search::JobSearchService;

#[test]
fn trimming() {
    assert_eq!(trim_str("  a b \n"), "a b");
    assert_eq!(trim_str("\u{3000}x\u{85}"), "x");
    assert_eq!(trim_str("   "), "");
    assert_eq!(trim_str(&trim_str(" q ")), "q");
}

#[test]
fn collapsing_keeps_words() {
    let s = " one\t two \n\nthree ";
    let c = collapse_whitespace_str(s);
    assert_eq!(c, "one two three");
    assert_eq!(collapse_whitespace_str(&c), c);
    let words: String = s.split_whitespace().collect();
    let kept: String = c.split_whitespace().collect();
    assert_eq!(words, kept);
}

#[test]
fn searching() {
    assert!(str_contains("abcabd", "abd"));
    assert!(str_contains("abc", ""));
    assert!(!str_contains("ab", "abc"));
    assert!(str_starts_with("https://hh.ru", "https://"));
    assert!(!str_starts_with("http", "https"));
    assert_eq!(strip_trailing_str("http://x///", '/'), "http://x");
    assert_eq!(strip_trailing_str("///", '/'), "");
}

fn encoded(query: &str) -> String {
    let service = JobSearchService::new(AppConfig {
        browser_headless: false,
        browser_driver_url: "http://localhost:9515".to_owned(),
        browser_profile_dir: "browser_profile".to_owned(),
        area_code: 1,
        items_per_page: 20,
        page_timeout: 30_000,
        hh_locale: "EN".to_owned(),
        server_host: HostAddr::V4(127, 0, 0, 1),
        server_port: 3000,
    });
    let url = service.build_search_url(query, 1);
    let rest = url.strip_prefix("https://hh.ru/search/vacancy?text=").unwrap();
    rest[..rest.find("&area=").unwrap()].to_owned()
}

#[test]
fn percent_encoding() {
    assert_eq!(encoded("a b"), "a%20b");
    assert_eq!(encoded("~-_.AZaz09"), "~-_.AZaz09");
    assert_eq!(encoded("ä"), "%C3%A4");
    assert_eq!(encoded("/?=#"), "%2F%3F%3D%23");
}
