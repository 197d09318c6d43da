use rusthunter::config::{AppConfig, HostAddr};
use rusthunter::models::JobListing;
use rusthunter::routes::apply::ApplyInput;
use rusthunter::services::actions::{Page, ScanTarget};
use rusthunter::services::browser::BrowserService;
use rusthunter::services::search_flow::SearchFlow;
use rusthunter::services::selectors::{locators, resume_locators, LocatorSet};
use rusthunter::services::targets::Targets;

fn config() -> AppConfig {
    AppConfig {
        browser_headless: false,
        browser_driver_url: "http://localhost:9515".to_owned(),
        browser_profile_dir: "browser_profile".to_owned(),
        area_code: 113,
        items_per_page: 20,
        page_timeout: 30_000,
        hh_locale: "ru RU".to_owned(),
        server_host: HostAddr::V4(127, 0, 0, 1),
        server_port: 3000,
    }
}

#[test]
fn search_targets_open_search_page_and_listings() {
    let (flow, _) = SearchFlow::start("https://hh.ru/search/vacancy?text=x".to_owned(), false, 10, true);
    let t = Targets::for_search(&flow);
    let listings = vec![JobListing {
        title: "T".to_owned(),
        url: "https://hh.ru/vacancy/9".to_owned(),
        employer: "E".to_owned(),
        description: String::new(),
    }];
    assert_eq!(t.address(&listings, Page::SearchResults).as_deref(), Some("https://hh.ru/search/vacancy?text=x"));
    assert_eq!(t.address(&listings, Page::Listing(0)).as_deref(), Some("https://hh.ru/vacancy/9"));
    assert_eq!(t.address(&listings, Page::Listing(1)), None);
}

#[test]
fn apply_targets_carry_the_validated_request() {
    let input = ApplyInput {
        vacancy_url: "https://hh.ru/vacancy/1".to_owned(),
        cover_letter: "Hello".to_owned(),
        resume_id: Some("r'1".to_owned()),
    };
    let t = Targets::for_apply(&input);
    assert_eq!(t.address(&Vec::new(), Page::Vacancy).as_deref(), Some("https://hh.ru/vacancy/1"));
    assert_eq!(t.cover_letter, "Hello");
    assert_eq!(t.scan_locators(ScanTarget::ResumeControls), resume_locators("r'1"));
    assert_eq!(
        t.scan_locators(ScanTarget::Group(LocatorSet::ApplyButtons)),
        locators(LocatorSet::ApplyButtons)
    );
    let none = Targets::for_apply(&ApplyInput { resume_id: None, ..input });
    assert_eq!(none.resume_id, "");
}

#[test]
fn login_targets_open_login_page() {
    let browser = BrowserService::new(config());
    let t = Targets::for_login(&browser);
    assert_eq!(
        t.address(&Vec::new(), Page::Login).as_deref(),
        Some("https://hh.ru/account/login?locale=ru%20RU")
    );
}
