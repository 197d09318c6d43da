use rusthunter::config::{AppConfig, HostAddr};
use rusthunter::services::actions::{BrowserAction, BrowserEvent, Page, HUMAN_DELAY_MS};
use rusthunter::services::job_search::JobSearchService;

fn config(items_per_page: u32, hh_locale: &str) -> AppConfig {
    AppConfig {
        browser_headless: false,
        browser_driver_url: "http://localhost:9515".to_owned(),
        browser_profile_dir: "browser_profile".to_owned(),
        area_code: 113,
        items_per_page,
        page_timeout: 30_000,
        hh_locale: hh_locale.to_owned(),
        server_host: HostAddr::V4(127, 0, 0, 1),
        server_port: 3000,
    }
}

#[test]
fn build_search_url_includes_configured_locale() {
    let service = JobSearchService::new(AppConfig {
        browser_headless: false,
        browser_driver_url: "http://localhost:9515".to_owned(),
        browser_profile_dir: "browser_profile".to_owned(),
        area_code: 113,
        items_per_page: 20,
        page_timeout: 30_000,
        hh_locale: "EN".to_owned(),
        server_host: HostAddr::V4(127, 0, 0, 1),
        server_port: 3000,
    });

    let url = service.build_search_url("AI Automation Engineer", 1);

    assert_eq!(
        url,
        "https://hh.ru/search/vacancy?text=AI%20Automation%20Engineer&area=113&items_on_page=20&page=1&locale=EN"
    );
}

#[test]
fn build_search_url_caps_items_per_page() {
    let service = JobSearchService::new(config(50, "EN"));
    assert!(service.build_search_url("x", 2).contains("&items_on_page=20&page=2&"));
    let small = JobSearchService::new(config(10, "EN"));
    assert!(small.build_search_url("x", 0).contains("&items_on_page=10&page=0&"));
}

#[test]
fn build_search_url_percent_encodes() {
    let service = JobSearchService::new(config(20, "ru-RU"));
    assert_eq!(
        service.build_search_url("C++ & Rust/Go~_.-", 3),
        "https://hh.ru/search/vacancy?text=C%2B%2B%20%26%20Rust%2FGo~_.-&area=113&items_on_page=20&page=3&locale=ru-RU"
    );
    assert!(service.build_search_url("Инженер", 1).starts_with(
        "https://hh.ru/search/vacancy?text=%D0%98%D0%BD%D0%B6%D0%B5%D0%BD%D0%B5%D1%80&"
    ));
}

#[test]
fn build_search_url_large_numbers() {
    let mut c = config(20, "EN");
    c.area_code = 4_294_967_295;
    let service = JobSearchService::new(c);
    assert_eq!(
        service.build_search_url("", 4_294_967_295),
        "https://hh.ru/search/vacancy?text=&area=4294967295&items_on_page=20&page=4294967295&locale=EN"
    );
}

#[test]
fn search_begins_with_pause_and_opens_built_address() {
    let service = JobSearchService::new(config(20, "EN"));
    let (flow, first) = service.begin_search("Rust", 2, true);
    assert_eq!(first, BrowserAction::Sleep(HUMAN_DELAY_MS));
    assert_eq!(flow.search_url, service.build_search_url("Rust", 2));
    let (flow, a) = flow.step(BrowserEvent::Failed(
        rusthunter::errors::AppError::Timeout,
    ));
    assert_eq!(a, BrowserAction::Sleep(HUMAN_DELAY_MS));
    let mut flow = flow;
    let mut opened = 0;
    let mut action = BrowserAction::Sleep(HUMAN_DELAY_MS);
    for _ in 0..5 {
        let (f, a) = flow.step(BrowserEvent::Done);
        flow = f;
        action = a;
        if action == BrowserAction::Goto(Page::SearchResults) {
            opened += 1;
        }
    }
    assert_eq!(opened, 1);
    assert_eq!(action, BrowserAction::ReadCurrentUrl);
    assert_eq!(flow.search_url, service.build_search_url("Rust", 2));
}
