//! What a flow's actions refer to: the address of each page it opens, the
//! cover letter it types and the resume it selects.
use vstd::prelude::*;

use crate::models::JobListing;
use crate::routes::apply::ApplyInput;
use crate::services::actions::{Page, ScanTarget};
use crate::services::browser::BrowserService;
use crate::services::search_flow::SearchFlow;
use crate::services::selectors::{
    locator_set_view, locators, locators_view, resume_locator_view, resume_locators, Locator,
    LocatorView,
};
use crate::url::url_encoded;

verus! {

/// The addresses and texts of one flow.
#[derive(Debug, Clone)]
pub struct Targets {
    /// The search results page.
    pub search_url: String,
    /// The vacancy being applied to.
    pub vacancy_url: String,
    /// The HH.ru login page.
    pub login_url: String,
    /// The cover letter to type.
    pub cover_letter: String,
    /// The resume to select (empty when none was requested).
    pub resume_id: String,
}

/// The address of `page`, where `listings` are the listings the flow has read:
/// none for a listing index past them.
pub open spec fn page_address(t: Targets, listings: Seq<JobListing>, page: Page) -> Option<
    Seq<char>,
> {
    match page {
        Page::SearchResults => Some(t.search_url@),
        Page::Vacancy => Some(t.vacancy_url@),
        Page::Login => Some(t.login_url@),
        Page::Listing(i) => if i < listings.len() {
            Some(listings[i as int].url@)
        } else {
            None
        },
    }
}

/// The locators a scan target stands for.
pub open spec fn target_locators(t: Targets, target: ScanTarget) -> Seq<
    LocatorView,
> {
    match target {
        ScanTarget::Group(set) => locator_set_view(set),
        ScanTarget::ResumeControls => resume_locator_view(t.resume_id@),
    }
}

impl Targets {
    /// The targets of a search flow: its search page.
    pub fn for_search(flow: &SearchFlow) -> (r: Targets)
        ensures
            r.search_url == flow.search_url,
            r.vacancy_url@.len() == 0,
            r.login_url@.len() == 0,
            r.cover_letter@.len() == 0,
            r.resume_id@.len() == 0,
    {
        Targets {
            search_url: flow.search_url.clone(),
            vacancy_url: String::new(),
            login_url: String::new(),
            cover_letter: String::new(),
            resume_id: String::new(),
        }
    }

    /// The targets of an apply flow: the validated vacancy address, cover
    /// letter and resume id.
    pub fn for_apply(input: &ApplyInput) -> (r: Targets)
        ensures
            r.vacancy_url == input.vacancy_url,
            r.cover_letter == input.cover_letter,
            r.resume_id@ == match input.resume_id {
                Some(id) => id@,
                None => Seq::<char>::empty(),
            },
            r.search_url@.len() == 0,
            r.login_url@.len() == 0,
    {
        let resume_id = match &input.resume_id {
            Some(id) => id.clone(),
            None => String::new(),
        };
        Targets {
            search_url: String::new(),
            vacancy_url: input.vacancy_url.clone(),
            login_url: String::new(),
            cover_letter: input.cover_letter.clone(),
            resume_id,
        }
    }

    /// The targets of the login flow: the login page in the configured locale.
    pub fn for_login(browser: &BrowserService) -> (r: Targets)
        ensures
            r.login_url@ == "https://hh.ru/account/login?locale="@ + url_encoded(
                browser.config().hh_locale@,
            ),
            r.search_url@.len() == 0,
            r.vacancy_url@.len() == 0,
            r.cover_letter@.len() == 0,
            r.resume_id@.len() == 0,
    {
        Targets {
            search_url: String::new(),
            vacancy_url: String::new(),
            login_url: browser.login_url(),
            cover_letter: String::new(),
            resume_id: String::new(),
        }
    }

    /// The address that `Goto(page)` opens.
    pub fn address(&self, listings: &Vec<JobListing>, page: Page) -> (r: Option<String>)
        ensures
            match r {
                Some(u) => page_address(*self, listings@, page) == Some(u@),
                None => page_address(*self, listings@, page) is None,
            },
    {
        match page {
            Page::SearchResults => Some(self.search_url.clone()),
            Page::Vacancy => Some(self.vacancy_url.clone()),
            Page::Login => Some(self.login_url.clone()),
            Page::Listing(i) => if i < listings.len() {
                Some(listings[i].url.clone())
            } else {
                None
            },
        }
    }

    /// The locators that a `Probe` of `target` scans.
    pub fn scan_locators(&self, target: ScanTarget) -> (r: Vec<Locator>)
        ensures
            locators_view(r@) == target_locators(*self, target),
    {
        match target {
            ScanTarget::Group(set) => locators(set),
            ScanTarget::ResumeControls => resume_locators(self.resume_id.as_str()),
        }
    }
}

} // verus!
