use rusthunter::config::{AppConfig, HostAddr};
use rusthunter::errors::AppError;
use rusthunter::services::browser::{
    clean_text, is_manual_browser_close_error, is_non_interactable_webdriver_error,
    listing_from_parts, normalize_hh_url, xpath_literal, BrowserService, DriverProbe,
};
use rusthunter::services::selectors::{locators, resume_locators, Locator, LocatorSet};

fn config() -> AppConfig {
    AppConfig {
        browser_headless: false,
        browser_driver_url: "http://localhost:9515/".to_owned(),
        browser_profile_dir: "browser_profile".to_owned(),
        area_code: 113,
        items_per_page: 20,
        page_timeout: 30_000,
        hh_locale: "EN".to_owned(),
        server_host: HostAddr::V4(127, 0, 0, 1),
        server_port: 3000,
    }
}

#[test]
fn clean_text_collapses_browser_whitespace() {
    assert_eq!(
        clean_text("  AI\n\nAutomation\tEngineer  ".to_owned()),
        "AI Automation Engineer"
    );
}

#[test]
fn normalize_hh_url_keeps_absolute_urls() {
    assert_eq!(
        normalize_hh_url("https://hh.ru/vacancy/123"),
        "https://hh.ru/vacancy/123"
    );
}

#[test]
fn normalize_hh_url_expands_relative_urls() {
    assert_eq!(
        normalize_hh_url("/vacancy/123"),
        "https://hh.ru/vacancy/123"
    );
}

#[test]
fn invalid_session_error_is_treated_as_manual_close() {
    assert!(is_manual_browser_close_error(&AppError::Browser(
        "The WebDriver session id is invalid: invalid session id".to_owned()
    )));
}

#[test]
fn normalize_hh_url_other_forms() {
    assert_eq!(normalize_hh_url("//hh.ru/vacancy/1"), "https://hh.ru/vacancy/1");
    assert_eq!(normalize_hh_url("vacancy/1"), "https://hh.ru/vacancy/1");
    assert_eq!(normalize_hh_url("   "), "");
    assert_eq!(normalize_hh_url(""), "");
    assert_eq!(normalize_hh_url("  http://x.ru/a \n"), "http://x.ru/a");
}

#[test]
fn normalize_hh_url_is_stable() {
    for href in ["/vacancy/9", "//hh.ru/a", "vacancy/2", "https://hh.ru/b", " "] {
        let once = normalize_hh_url(href);
        assert_eq!(normalize_hh_url(&once), once);
        assert!(once.is_empty() || once.starts_with("http://") || once.starts_with("https://"));
    }
}

#[test]
fn clean_text_edge_cases() {
    assert_eq!(clean_text(String::new()), "");
    assert_eq!(clean_text(" \u{a0}\u{3000}\t".to_owned()), "");
    assert_eq!(clean_text("a\u{2003}b".to_owned()), "a b");
    let once = clean_text(" x \n y\tz ".to_owned());
    assert_eq!(once, "x y z");
    assert_eq!(clean_text(once.clone()), once);
}

#[test]
fn manual_close_messages() {
    for m in [
        "SESSION DELETED because of page crash",
        "no such window: target window already closed",
        "web view not found",
        "chrome not reachable: disconnected",
    ] {
        assert!(is_manual_browser_close_error(&AppError::Browser(m.to_owned())));
    }
    assert!(!is_manual_browser_close_error(&AppError::Browser("stale element".to_owned())));
    assert!(!is_manual_browser_close_error(&AppError::Internal("invalid session id".to_owned())));
    assert!(!is_manual_browser_close_error(&AppError::Timeout));
}

#[test]
fn non_interactable_messages() {
    assert!(is_non_interactable_webdriver_error("Element Not Interactable"));
    assert!(is_non_interactable_webdriver_error("element click intercepted: x"));
    assert!(is_non_interactable_webdriver_error("Other element would receive the click"));
    assert!(!is_non_interactable_webdriver_error("no such element"));
}

#[test]
fn xpath_literal_quotes() {
    assert_eq!(xpath_literal("abc"), "'abc'");
    assert_eq!(xpath_literal("it's"), "\"it's\"");
    assert_eq!(
        xpath_literal("a'b\"c"),
        "concat('a', \"'\", 'b\"c')"
    );
    assert_eq!(xpath_literal("'\""), "concat('', \"'\", '\"')");
}

#[test]
fn classify_driver_errors() {
    let b = BrowserService::new(config());
    assert_eq!(
        b.classify_driver_error("session not created: user data directory is already in use"),
        AppError::ProfileInUse("browser_profile".to_owned())
    );
    assert_eq!(
        b.classify_driver_error("Chrome failed to start: DevToolsActivePort file doesn't exist"),
        AppError::ProfileInUse("browser_profile".to_owned())
    );
    assert_eq!(
        b.classify_driver_error("chrome failed to start: crashed"),
        AppError::Browser("chrome failed to start: crashed".to_owned())
    );
}

#[test]
fn driver_status() {
    let b = BrowserService::new(config());
    assert_eq!(b.driver_status_url(), "http://localhost:9515/status");
    assert_eq!(
        b.driver_status_outcome(DriverProbe::Responded { code: 200, status_text: "200 OK".to_owned() }),
        Ok(())
    );
    assert_eq!(
        b.driver_status_outcome(DriverProbe::Responded {
            code: 404,
            status_text: "404 Not Found".to_owned()
        }),
        Err(AppError::DriverUnavailable(
            "http://localhost:9515/ returned HTTP 404 Not Found".to_owned()
        ))
    );
    assert_eq!(
        b.driver_status_outcome(DriverProbe::Unreachable),
        Err(AppError::DriverUnavailable("http://localhost:9515/".to_owned()))
    );
}

#[test]
fn login_url_uses_locale() {
    let mut c = config();
    c.hh_locale = "RU ru".to_owned();
    let b = BrowserService::new(c);
    assert_eq!(b.login_url(), "https://hh.ru/account/login?locale=RU%20ru");
}

#[test]
fn chrome_capabilities_plan() {
    let b = BrowserService::new(config());
    let visible = b.chrome_capabilities("/tmp/profile", false);
    assert_eq!(visible.args.len(), 22);
    assert_eq!(visible.args[0], "--user-data-dir=/tmp/profile");
    assert_eq!(visible.args[21], "--window-size=1365,900");
    assert_eq!(visible.exclude_switches, vec!["enable-logging".to_owned()]);
    assert!(!visible.use_automation_extension);
    assert_eq!(visible.accept_languages, "en-US,en");
    assert!(visible.translate_enabled);
    let headless = b.chrome_capabilities("/tmp/profile", true);
    assert_eq!(headless.args.len(), 23);
    assert_eq!(headless.args[22], "--headless=new");
}

#[test]
fn listings_from_card_parts() {
    let l = listing_from_parts(
        "  AI \n Engineer ".to_owned(),
        Some("/vacancy/42?from=serp".to_owned()),
        Some("  ACME\tLtd ".to_owned()),
    )
    .unwrap();
    assert_eq!(l.title, "AI Engineer");
    assert_eq!(l.url, "https://hh.ru/vacancy/42?from=serp");
    assert_eq!(l.employer, "ACME Ltd");
    assert_eq!(l.description, "");
    let unknown = listing_from_parts("T".to_owned(), Some("/v/1".to_owned()), None).unwrap();
    assert_eq!(unknown.employer, "Unknown");
    let blank = listing_from_parts("T".to_owned(), Some("/v/1".to_owned()), Some("  ".to_owned()))
        .unwrap();
    assert_eq!(blank.employer, "Unknown");
    assert!(listing_from_parts("  ".to_owned(), Some("/v/1".to_owned()), None).is_none());
    assert!(listing_from_parts("T".to_owned(), None, None).is_none());
    assert!(listing_from_parts("T".to_owned(), Some(" ".to_owned()), None).is_none());
}

#[test]
fn locator_groups() {
    assert_eq!(
        locators(LocatorSet::ResultCards),
        vec![
            Locator::Css("[data-qa='vacancy-serp__vacancy']".to_owned()),
            Locator::Css("[data-qa='serp-item']".to_owned()),
            Locator::Css(".vacancy-serp-item".to_owned()),
        ]
    );
    assert_eq!(locators(LocatorSet::ApplyButtons).len(), 8);
    assert_eq!(locators(LocatorSet::CoverLetterInput)[3], Locator::Css("textarea".to_owned()));
}

#[test]
fn resume_locators_quote_the_id() {
    let v = resume_locators("r'1");
    assert_eq!(v[0], Locator::Css("input[value='r'1']".to_owned()));
    assert_eq!(v[3], Locator::XPath("//*[@value=\"r'1\"]".to_owned()));
    assert_eq!(v[4], Locator::XPath("//*[contains(@href, \"r'1\")]".to_owned()));
    assert_eq!(v[5], Locator::XPath("//*[contains(@data-qa, \"r'1\")]".to_owned()));
}
