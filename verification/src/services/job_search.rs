//! Vacancy search: the search page address and the search service.
use vstd::prelude::*;

use crate::config::AppConfig;
use crate::services::actions::{BrowserAction, BrowserEvent, HUMAN_DELAY_MS};
use crate::services::browser::BrowserService;
use crate::services::search_flow::{
    law_search_run_opens_search_page_once, law_search_run_pauses_first, search_action,
    search_initial, search_page_openings, search_run, SearchFlow, SearchStage,
};
use crate::text::owned;
use crate::url::{decimal, push_decimal, url_encode, url_encoded};

verus! {

/// Searches HH.ru vacancies through the browser.
#[derive(Debug)]
pub struct JobSearchService {
    config: AppConfig,
    browser: BrowserService,
}

/// A field-by-field copy of a configuration.
pub fn copy_config(c: &AppConfig) -> (r: AppConfig)
    ensures
        r == *c,
{
    AppConfig {
        browser_headless: c.browser_headless,
        browser_driver_url: c.browser_driver_url.clone(),
        browser_profile_dir: c.browser_profile_dir.clone(),
        area_code: c.area_code,
        items_per_page: c.items_per_page,
        page_timeout: c.page_timeout,
        hh_locale: c.hh_locale.clone(),
        server_host: c.server_host,
        server_port: c.server_port,
    }
}

/// The number of results asked for per page: the configured number, at most 20.
pub open spec fn capped_items(items_per_page: u32) -> u32 {
    if items_per_page < 20 {
        items_per_page
    } else {
        20
    }
}

/// The HH.ru search page for `query` and `page` under configuration `c`.
pub open spec fn search_url(c: AppConfig, query: Seq<char>, page: u32) -> Seq<char> {
    "https://hh.ru/search/vacancy?text="@ + url_encoded(query) + "&area="@ + decimal(
        c.area_code as nat,
    ) + "&items_on_page="@ + decimal(capped_items(c.items_per_page) as nat) + "&page="@
        + decimal(page as nat) + "&locale="@ + url_encoded(c.hh_locale@)
}

impl JobSearchService {
    /// A search service with its own browser service over the same
    /// configuration.
    pub fn new(config: AppConfig) -> (r: Self)
        ensures
            r.config() == config,
            r.browser().config() == config,
    {
        JobSearchService { browser: BrowserService::new(copy_config(&config)), config }
    }

    /// The configuration of the service.
    pub closed spec fn config(&self) -> AppConfig {
        self.config
    }

    /// The browser service that the search drives.
    pub closed spec fn browser(&self) -> BrowserService {
        self.browser
    }

    /// The configuration of the service.
    pub fn config_ref(&self) -> (r: &AppConfig)
        ensures
            *r == self.config(),
    {
        &self.config
    }

    /// The browser service that the search drives.
    pub fn browser_ref(&self) -> (r: &BrowserService)
        ensures
            *r == self.browser(),
    {
        &self.browser
    }

    /// The search for `query` and `page`: after the human-like pause, the
    /// browser service opens the page that `build_search_url` gives.
    pub fn begin_search(&self, query: &str, page: u32, include_description: bool) -> (r: (
        SearchFlow,
        BrowserAction,
    ))
        ensures
            r.0@ == search_initial(
                search_url(self.config(), query@, page),
                self.browser().config().browser_headless,
                self.browser().config().page_timeout,
                include_description,
            ),
            r.0.wf(),
            r.1 == BrowserAction::Sleep(HUMAN_DELAY_MS),
    {
        let url = self.build_search_url(query, page);
        self.browser.begin_search(url, include_description)
    }

    /// The search page address: the percent-encoded query, the configured area,
    /// at most 20 items per page, the page number and the percent-encoded
    /// locale.
    pub fn build_search_url(&self, query: &str, page: u32) -> (r: String)
        ensures
            r@ == search_url(self.config(), query@, page),
    {
        let items_per_page = if self.config.items_per_page < 20 {
            self.config.items_per_page
        } else {
            20
        };
        let mut url = owned("https://hh.ru/search/vacancy?text=");
        let q = url_encode(query);
        url.append(q.as_str());
        url.append("&area=");
        push_decimal(&mut url, self.config.area_code as u64);
        url.append("&items_on_page=");
        push_decimal(&mut url, items_per_page as u64);
        url.append("&page=");
        push_decimal(&mut url, page as u64);
        url.append("&locale=");
        let l = url_encode(self.config.hh_locale.as_str());
        url.append(l.as_str());
        url
    }
}

/// A whole search for `query` and `page`, whatever the browser answers: it
/// does nothing but the 5-second pause until the pause is done, it enters the
/// stage that opens the search page at most once, and the page it opens is
/// the address `build_search_url` gives throughout.
pub proof fn law_search_opens_built_address_once(
    c: AppConfig,
    query: Seq<char>,
    page: u32,
    headless: bool,
    page_timeout: u64,
    include_description: bool,
    events: Seq<BrowserEvent>,
)
    ensures
        ({
            let s = search_initial(search_url(c, query, page), headless, page_timeout, include_description);
            &&& search_run(s, events).search_url == search_url(c, query, page)
            &&& search_page_openings(s, events) <= 1
            &&& (forall|j: int| 0 <= j < events.len() ==> #[trigger] events[j] != BrowserEvent::Done)
                ==> search_run(s, events).stage == SearchStage::Pause && search_action(
                search_run(s, events),
            ) == BrowserAction::Sleep(HUMAN_DELAY_MS)
        }),
{
    let s = search_initial(search_url(c, query, page), headless, page_timeout, include_description);
    law_search_run_opens_search_page_once(s, events);
    if forall|j: int| 0 <= j < events.len() ==> #[trigger] events[j] != BrowserEvent::Done {
        law_search_run_pauses_first(s, events);
    }
}

} // verus!
