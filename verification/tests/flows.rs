use rusthunter::errors::AppError;
use rusthunter::models::JobListing;
use rusthunter::services::actions::{
    BrowserAction, BrowserEvent, Page, PageState, ScanGoal, ScanOutcome, ScanTarget, Shot,
    HUMAN_DELAY_MS, POLL_INTERVAL_MS,
};
use rusthunter::services::apply_flow::ApplyFlow;
use rusthunter::services::card::CardExtraction;
use rusthunter::services::close_watch::CloseWatch;
use rusthunter::services::login_flow::LoginFlow;
use rusthunter::services::page_state::{CaptchaCheck, PageWait};
use rusthunter::services::scan::LocatorScan;
use rusthunter::services::search_flow::SearchFlow;
use rusthunter::services::selectors::LocatorSet;

fn listing(n: u32) -> JobListing {
    JobListing {
        title: format!("T{n}"),
        url: format!("https://hh.ru/vacancy/{n}"),
        employer: "E".to_owned(),
        description: String::new(),
    }
}

#[test]
fn scan_any_present_stops_at_first_match() {
    let (s, a) = LocatorScan::start(ScanGoal::AnyPresent, 3);
    assert_eq!(a, BrowserAction::FindAll(0));
    let (s, a) = s.step(BrowserEvent::Count(0));
    assert_eq!(a, BrowserAction::FindAll(1));
    let (s, a) = s.step(BrowserEvent::Count(2));
    assert_eq!(a, BrowserAction::Finish);
    assert_eq!(s.outcome, Some(ScanOutcome::Found));
}

#[test]
fn scan_not_found_after_all_locators() {
    let (mut s, mut a) = LocatorScan::start(ScanGoal::AnyDisplayed, 2);
    for step in [BrowserEvent::Count(1), BrowserEvent::Flag(false), BrowserEvent::Count(0)] {
        let (t, b) = s.step(step);
        s = t;
        a = b;
    }
    assert_eq!(a, BrowserAction::Finish);
    assert_eq!(s.outcome, Some(ScanOutcome::NotFound));
    let (empty, a) = LocatorScan::start(ScanGoal::AnyPresent, 0);
    assert_eq!(a, BrowserAction::Finish);
    assert_eq!(empty.outcome, Some(ScanOutcome::NotFound));
}

#[test]
fn scan_click_skips_uninteractable_elements() {
    let (s, _) = LocatorScan::start(ScanGoal::ClickFirstInteractable, 1);
    let (s, a) = s.step(BrowserEvent::Count(2));
    assert_eq!(a, BrowserAction::IsDisplayed(0));
    let (s, a) = s.step(BrowserEvent::Flag(true));
    assert_eq!(a, BrowserAction::IsEnabled(0));
    let (s, a) = s.step(BrowserEvent::Flag(true));
    assert_eq!(a, BrowserAction::ScrollIntoView(0));
    let (s, a) = s.step(BrowserEvent::Failed(AppError::Browser("no scroll".to_owned())));
    assert_eq!(a, BrowserAction::Click(0));
    let (s, a) = s.step(BrowserEvent::Failed(AppError::Browser(
        "element click intercepted".to_owned(),
    )));
    assert_eq!(a, BrowserAction::IsDisplayed(1));
    let (s, a) = s.step(BrowserEvent::Failed(AppError::Browser("stale".to_owned())));
    assert_eq!(a, BrowserAction::Finish);
    assert_eq!(s.outcome, Some(ScanOutcome::NoCandidate));
}

#[test]
fn scan_first_present_and_first_interactable() {
    let (s, a) = LocatorScan::start(ScanGoal::FirstPresent, 2);
    assert_eq!(a, BrowserAction::Find(0));
    let (s, a) = s.step(BrowserEvent::Missing);
    assert_eq!(a, BrowserAction::Find(1));
    let (s, _) = s.step(BrowserEvent::Done);
    assert_eq!(s.outcome, Some(ScanOutcome::Element { loc: 1, elem: 0 }));

    let (s, _) = LocatorScan::start(ScanGoal::FirstInteractable, 1);
    let (s, _) = s.step(BrowserEvent::Count(1));
    let (s, a) = s.step(BrowserEvent::Failed(AppError::Browser("gone".to_owned())));
    assert_eq!(a, BrowserAction::Finish);
    assert_eq!(s.outcome, Some(ScanOutcome::Error(AppError::Browser("gone".to_owned()))));
}

#[test]
fn captcha_check_groups() {
    let (c, a) = CaptchaCheck::start();
    assert_eq!(a, BrowserAction::Probe(ScanGoal::AnyDisplayed, ScanTarget::Group(LocatorSet::CaptchaFrames)));
    let (c, a) = c.step(BrowserEvent::Scan(ScanOutcome::NotFound));
    assert_eq!(a, BrowserAction::Probe(ScanGoal::AnyDisplayed, ScanTarget::Group(LocatorSet::CaptchaInputs)));
    let (c, a) = c.step(BrowserEvent::Scan(ScanOutcome::NotFound));
    assert_eq!(a, BrowserAction::Probe(ScanGoal::AnyDisplayed, ScanTarget::Group(LocatorSet::RobotIndicators)));
    let (done, a) = c.clone().step(BrowserEvent::Scan(ScanOutcome::NotFound));
    assert_eq!(a, BrowserAction::Finish);
    assert_eq!(done.result, Some(Ok(false)));
    let (seen, _) = c.step(BrowserEvent::Scan(ScanOutcome::Found));
    assert_eq!(seen.result, Some(Ok(true)));
}

#[test]
fn page_wait_polls_until_deadline() {
    let (w, a) = PageWait::start(PageState::VacancyPage, 1000);
    assert_eq!(a, BrowserAction::StartDeadline(1000));
    let (w, a) = w.step(BrowserEvent::Done);
    assert_eq!(a, BrowserAction::CheckDeadline);
    let (w, a) = w.step(BrowserEvent::Flag(false));
    assert_eq!(a, BrowserAction::DetectCaptcha);
    let (w, a) = w.step(BrowserEvent::Flag(false));
    assert_eq!(a, BrowserAction::Probe(ScanGoal::AnyPresent, ScanTarget::Group(LocatorSet::VacancyPageReady)));
    let (w, a) = w.step(BrowserEvent::Scan(ScanOutcome::NotFound));
    assert_eq!(a, BrowserAction::Sleep(POLL_INTERVAL_MS));
    let (w, a) = w.step(BrowserEvent::Done);
    assert_eq!(a, BrowserAction::CheckDeadline);
    let (w, a) = w.step(BrowserEvent::Flag(true));
    assert_eq!(a, BrowserAction::Finish);
    assert_eq!(w.result, Some(Err(AppError::Timeout)));
}

#[test]
fn page_wait_search_accepts_empty_state() {
    let (w, _) = PageWait::start(PageState::SearchResults, 1000);
    let (w, _) = w.step(BrowserEvent::Done);
    let (w, _) = w.step(BrowserEvent::Flag(false));
    let (w, _) = w.step(BrowserEvent::Flag(false));
    let (w, a) = w.step(BrowserEvent::Scan(ScanOutcome::NotFound));
    assert_eq!(a, BrowserAction::Probe(ScanGoal::AnyDisplayed, ScanTarget::Group(LocatorSet::SearchEmptyState)));
    let (w, _) = w.step(BrowserEvent::Scan(ScanOutcome::Found));
    assert_eq!(w.result, Some(Ok(())));
}

#[test]
fn card_extraction() {
    let (c, a) = CardExtraction::start();
    assert_eq!(a, BrowserAction::ProbeCard(ScanGoal::FirstPresent, LocatorSet::CardTitle));
    let (c, a) = c.step(BrowserEvent::Scan(ScanOutcome::Element { loc: 0, elem: 0 }));
    assert_eq!(a, BrowserAction::ReadText);
    let (c, a) = c.step(BrowserEvent::Text(" Rust\nDev ".to_owned()));
    assert_eq!(a, BrowserAction::ReadHref);
    let (c, a) = c.step(BrowserEvent::Attr(Some("/vacancy/7".to_owned())));
    assert_eq!(a, BrowserAction::ProbeCard(ScanGoal::FirstPresent, LocatorSet::CardEmployer));
    let (c, a) = c.step(BrowserEvent::Scan(ScanOutcome::NotFound));
    assert_eq!(a, BrowserAction::Finish);
    let l = c.into_listing().unwrap().unwrap();
    assert_eq!(l.title, "Rust Dev");
    assert_eq!(l.url, "https://hh.ru/vacancy/7");
    assert_eq!(l.employer, "Unknown");

    let (c, _) = CardExtraction::start();
    let (c, _) = c.step(BrowserEvent::Scan(ScanOutcome::NotFound));
    assert_eq!(c.into_listing(), Ok(None));
}

#[test]
fn close_watch() {
    let (w, a) = CloseWatch::start();
    assert_eq!(a, BrowserAction::Sleep(1000));
    let (w, a) = w.step(BrowserEvent::Done);
    assert_eq!(a, BrowserAction::ListWindows);
    let (w, a) = w.step(BrowserEvent::Count(1));
    assert_eq!(a, BrowserAction::ReadCurrentUrl);
    let (w, a) = w.step(BrowserEvent::Done);
    assert_eq!(a, BrowserAction::Sleep(1000));
    let (w, _) = w.step(BrowserEvent::Done);
    let (w, a) = w.step(BrowserEvent::Count(0));
    assert_eq!(w, CloseWatch::Closed);
    assert_eq!(a, BrowserAction::Finish);
}

fn run_search(flow: SearchFlow, first: BrowserAction, events: Vec<BrowserEvent>) -> (SearchFlow, Vec<BrowserAction>) {
    let mut actions = vec![first];
    let mut flow = flow;
    for e in events {
        let (f, a) = flow.step(e);
        flow = f;
        actions.push(a);
    }
    (flow, actions)
}

#[test]
fn search_flow_with_descriptions() {
    let (flow, first) = SearchFlow::start("https://hh.ru/search/vacancy?text=x".to_owned(), false, 30_000, true);
    assert_eq!(first, BrowserAction::Sleep(HUMAN_DELAY_MS));
    let (flow, actions) = run_search(flow, first, vec![
        BrowserEvent::Done,
        BrowserEvent::Done,
        BrowserEvent::Done,
        BrowserEvent::Done,
        BrowserEvent::Done,
        BrowserEvent::Done,
        BrowserEvent::Done,
        BrowserEvent::Flag(false),
        BrowserEvent::Scan(ScanOutcome::Elements { loc: 0, count: 2 }),
        BrowserEvent::Card(Some(listing(1))),
        BrowserEvent::Card(None),
        BrowserEvent::Done,
        BrowserEvent::Done,
        BrowserEvent::Done,
        BrowserEvent::Done,
        BrowserEvent::Done,
        BrowserEvent::Flag(false),
        BrowserEvent::Scan(ScanOutcome::Element { loc: 0, elem: 0 }),
        BrowserEvent::Text("  Full\n description ".to_owned()),
        BrowserEvent::Done,
        BrowserEvent::Done,
    ]);
    assert_eq!(actions, vec![
        BrowserAction::Sleep(HUMAN_DELAY_MS),
        BrowserAction::CheckDriver,
        BrowserAction::CreateDriver { headless: false },
        BrowserAction::StartTimer(30_000),
        BrowserAction::Goto(Page::SearchResults),
        BrowserAction::ReadCurrentUrl,
        BrowserAction::WaitFor(PageState::SearchResults),
        BrowserAction::DetectCaptcha,
        BrowserAction::Probe(ScanGoal::FirstNonEmpty, ScanTarget::Group(LocatorSet::ResultCards)),
        BrowserAction::ExtractCard(0),
        BrowserAction::ExtractCard(1),
        BrowserAction::StopTimer,
        BrowserAction::Sleep(HUMAN_DELAY_MS),
        BrowserAction::StartTimer(30_000),
        BrowserAction::Goto(Page::Listing(0)),
        BrowserAction::WaitFor(PageState::Description),
        BrowserAction::DetectCaptcha,
        BrowserAction::Probe(ScanGoal::FirstPresent, ScanTarget::Group(LocatorSet::DescriptionText)),
        BrowserAction::ReadText,
        BrowserAction::StopTimer,
        BrowserAction::Quit,
        BrowserAction::Finish,
    ]);
    let listings = flow.into_result().unwrap();
    assert_eq!(listings.len(), 1);
    assert_eq!(listings[0].title, "T1");
    assert_eq!(listings[0].description, "Full description");
}

#[test]
fn search_flow_without_descriptions_skips_vacancy_pages() {
    let (flow, first) = SearchFlow::start("https://hh.ru/search/vacancy?text=x".to_owned(), false, 30_000, false);
    let (flow, actions) = run_search(flow, first, vec![
        BrowserEvent::Done,
        BrowserEvent::Done,
        BrowserEvent::Done,
        BrowserEvent::Done,
        BrowserEvent::Done,
        BrowserEvent::Done,
        BrowserEvent::Done,
        BrowserEvent::Flag(false),
        BrowserEvent::Scan(ScanOutcome::Elements { loc: 0, count: 2 }),
        BrowserEvent::Card(Some(listing(1))),
        BrowserEvent::Card(Some(listing(2))),
        BrowserEvent::Done,
        BrowserEvent::Done,
    ]);
    assert_eq!(&actions[9..], &[
        BrowserAction::ExtractCard(0),
        BrowserAction::ExtractCard(1),
        BrowserAction::StopTimer,
        BrowserAction::Quit,
        BrowserAction::Finish,
    ]);
    assert!(!actions.iter().any(|a| matches!(a, BrowserAction::Goto(Page::Listing(_)))));
    assert_eq!(flow.into_result().unwrap(), vec![listing(1), listing(2)]);
}

#[test]
fn search_flow_blank_description_is_empty() {
    let (flow, first) = SearchFlow::start("u".to_owned(), false, 10, true);
    let mut card = listing(7);
    card.description = "from the card".to_owned();
    let (flow, actions) = run_search(flow, first, vec![
        BrowserEvent::Done,
        BrowserEvent::Done,
        BrowserEvent::Done,
        BrowserEvent::Done,
        BrowserEvent::Done,
        BrowserEvent::Done,
        BrowserEvent::Done,
        BrowserEvent::Flag(false),
        BrowserEvent::Scan(ScanOutcome::Elements { loc: 0, count: 1 }),
        BrowserEvent::Card(Some(card)),
        BrowserEvent::Done,
        BrowserEvent::Done,
        BrowserEvent::Done,
        BrowserEvent::Done,
        BrowserEvent::Done,
        BrowserEvent::Flag(false),
        BrowserEvent::Scan(ScanOutcome::NotFound),
        BrowserEvent::Done,
        BrowserEvent::Done,
    ]);
    assert_eq!(actions.last(), Some(&BrowserAction::Finish));
    let listings = flow.into_result().unwrap();
    assert_eq!(listings[0].title, "T7");
    assert_eq!(listings[0].description, "");
}

#[test]
fn search_flow_keeps_cards_in_order_and_skips_failures() {
    let (flow, first) = SearchFlow::start("u".to_owned(), false, 10, false);
    let (flow, _) = run_search(flow, first, vec![
        BrowserEvent::Done,
        BrowserEvent::Done,
        BrowserEvent::Done,
        BrowserEvent::Done,
        BrowserEvent::Done,
        BrowserEvent::Done,
        BrowserEvent::Done,
        BrowserEvent::Flag(false),
        BrowserEvent::Scan(ScanOutcome::Elements { loc: 2, count: 4 }),
        BrowserEvent::Card(Some(listing(3))),
        BrowserEvent::Failed(AppError::Browser("stale element".to_owned())),
        BrowserEvent::Card(None),
        BrowserEvent::Card(Some(listing(1))),
        BrowserEvent::Done,
        BrowserEvent::Done,
    ]);
    assert_eq!(flow.into_result().unwrap(), vec![listing(3), listing(1)]);
}

#[test]
fn search_flow_without_cards_returns_no_listings() {
    for found in [ScanOutcome::NotFound, ScanOutcome::Elements { loc: 0, count: 0 }] {
        let (flow, first) = SearchFlow::start("u".to_owned(), false, 10, true);
        let (flow, actions) = run_search(flow, first, vec![
            BrowserEvent::Done,
            BrowserEvent::Done,
            BrowserEvent::Done,
            BrowserEvent::Done,
            BrowserEvent::Done,
            BrowserEvent::Done,
            BrowserEvent::Done,
            BrowserEvent::Flag(false),
            BrowserEvent::Scan(found),
            BrowserEvent::Done,
            BrowserEvent::Done,
        ]);
        assert_eq!(&actions[9..], &[BrowserAction::StopTimer, BrowserAction::Quit, BrowserAction::Finish]);
        assert_eq!(flow.into_result().unwrap(), Vec::<JobListing>::new());
    }
}

#[test]
fn search_flow_captcha_fails_with_503() {
    let (flow, first) = SearchFlow::start("https://hh.ru/search/vacancy?text=x".to_owned(), true, 10, false);
    let (flow, actions) = run_search(flow, first, vec![
        BrowserEvent::Done,
        BrowserEvent::Done,
        BrowserEvent::Done,
        BrowserEvent::Done,
        BrowserEvent::Done,
        BrowserEvent::Done,
        BrowserEvent::Done,
        BrowserEvent::Flag(true),
        BrowserEvent::Done,
        BrowserEvent::Done,
        BrowserEvent::Done,
    ]);
    assert_eq!(&actions[8..], &[
        BrowserAction::Screenshot(Shot::Captcha),
        BrowserAction::StopTimer,
        BrowserAction::Quit,
        BrowserAction::Finish,
    ]);
    assert_eq!(flow.into_result(), Err(AppError::CaptchaDetected));
}

#[test]
fn search_flow_description_timeout_is_skipped() {
    let (flow, first) = SearchFlow::start("https://hh.ru/search/vacancy?text=x".to_owned(), false, 10, true);
    let (flow, actions) = run_search(flow, first, vec![
        BrowserEvent::Done,
        BrowserEvent::Done,
        BrowserEvent::Done,
        BrowserEvent::Done,
        BrowserEvent::Done,
        BrowserEvent::Done,
        BrowserEvent::Done,
        BrowserEvent::Flag(false),
        BrowserEvent::Scan(ScanOutcome::Elements { loc: 1, count: 1 }),
        BrowserEvent::Card(Some(listing(5))),
        BrowserEvent::Done,
        BrowserEvent::Done,
        BrowserEvent::Done,
        BrowserEvent::TimedOut,
        BrowserEvent::Done,
        BrowserEvent::Done,
        BrowserEvent::Done,
    ]);
    assert_eq!(&actions[14..], &[
        BrowserAction::StopTimer,
        BrowserAction::Screenshot(Shot::DescriptionTimeout),
        BrowserAction::Quit,
        BrowserAction::Finish,
    ]);
    let listings = flow.into_result().unwrap();
    assert_eq!(listings, vec![listing(5)]);
}

#[test]
fn search_flow_driver_unavailable() {
    let (flow, first) = SearchFlow::start("https://hh.ru/search/vacancy?text=x".to_owned(), false, 10, true);
    let err = AppError::DriverUnavailable("http://localhost:9515".to_owned());
    let (flow, actions) = run_search(flow, first, vec![BrowserEvent::Done, BrowserEvent::Failed(err.clone())]);
    assert_eq!(actions.last(), Some(&BrowserAction::Finish));
    assert_eq!(flow.into_result(), Err(err));
}

fn run_apply(has_resume: bool, events: Vec<BrowserEvent>) -> (ApplyFlow, Vec<BrowserAction>) {
    let (mut flow, first) = ApplyFlow::start(has_resume);
    let mut actions = vec![first];
    for e in events {
        let (f, a) = flow.step(e);
        flow = f;
        actions.push(a);
    }
    (flow, actions)
}

#[test]
fn apply_flow_prepares_and_waits_for_review() {
    let (flow, actions) = run_apply(true, vec![
        BrowserEvent::Done,
        BrowserEvent::Done,
        BrowserEvent::Done,
        BrowserEvent::Done,
        BrowserEvent::Flag(false),
        BrowserEvent::Done,
        BrowserEvent::Done,
        BrowserEvent::Scan(ScanOutcome::Clicked),
        BrowserEvent::Done,
        BrowserEvent::Done,
        BrowserEvent::Flag(false),
        BrowserEvent::Scan(ScanOutcome::Element { loc: 0, elem: 0 }),
        BrowserEvent::Done,
        BrowserEvent::Scan(ScanOutcome::Element { loc: 3, elem: 0 }),
        BrowserEvent::Done,
        BrowserEvent::Done,
        BrowserEvent::Done,
        BrowserEvent::Done,
    ]);
    assert_eq!(actions, vec![
        BrowserAction::CheckDriver,
        BrowserAction::CreateDriver { headless: false },
        BrowserAction::Goto(Page::Vacancy),
        BrowserAction::WaitFor(PageState::VacancyPage),
        BrowserAction::DetectCaptcha,
        BrowserAction::Sleep(HUMAN_DELAY_MS),
        BrowserAction::Screenshot(Shot::ApplyBeforeClick),
        BrowserAction::Probe(ScanGoal::ClickFirstInteractable, ScanTarget::Group(LocatorSet::ApplyButtons)),
        BrowserAction::WaitFor(PageState::ApplyForm),
        BrowserAction::Screenshot(Shot::ApplyModal),
        BrowserAction::DetectCaptcha,
        BrowserAction::Probe(ScanGoal::FirstInteractable, ScanTarget::ResumeControls),
        BrowserAction::ClickMatched,
        BrowserAction::Probe(ScanGoal::FirstInteractable, ScanTarget::Group(LocatorSet::CoverLetterInput)),
        BrowserAction::ClearMatched,
        BrowserAction::TypeCoverLetter,
        BrowserAction::Screenshot(Shot::ApplyReadyForReview),
        BrowserAction::WaitForManualClose,
        BrowserAction::Finish,
    ]);
    assert_eq!(flow.into_result(), Ok(()));
}

#[test]
fn apply_flow_captcha_fails_without_retry() {
    let (flow, actions) = run_apply(false, vec![
        BrowserEvent::Done,
        BrowserEvent::Done,
        BrowserEvent::Done,
        BrowserEvent::Failed(AppError::Timeout),
        BrowserEvent::Done,
        BrowserEvent::Flag(true),
        BrowserEvent::Done,
        BrowserEvent::Done,
    ]);
    assert_eq!(&actions[4..], &[
        BrowserAction::Screenshot(Shot::ApplyError),
        BrowserAction::DetectCaptcha,
        BrowserAction::Screenshot(Shot::Captcha),
        BrowserAction::Screenshot(Shot::ApplyError),
        BrowserAction::Finish,
    ]);
    assert_eq!(flow.into_result(), Err(AppError::CaptchaDetected));
}

#[test]
fn apply_flow_browser_closed_counts_as_done() {
    let (flow, actions) = run_apply(false, vec![
        BrowserEvent::Done,
        BrowserEvent::Done,
        BrowserEvent::Failed(AppError::Browser("invalid session id".to_owned())),
    ]);
    assert_eq!(actions.last(), Some(&BrowserAction::Finish));
    assert_eq!(flow.into_result(), Ok(()));
    let (flow, actions) = run_apply(false, vec![
        BrowserEvent::Done,
        BrowserEvent::Done,
        BrowserEvent::Failed(AppError::Browser("net::ERR_NAME_NOT_RESOLVED".to_owned())),
        BrowserEvent::Done,
    ]);
    assert_eq!(&actions[3..], &[BrowserAction::Screenshot(Shot::ApplyError), BrowserAction::Finish]);
    assert_eq!(flow.into_result(), Err(AppError::Browser("net::ERR_NAME_NOT_RESOLVED".to_owned())));
}

#[test]
fn login_flow_closes_session() {
    let (flow, a) = LoginFlow::start(true);
    assert_eq!(a, BrowserAction::CheckDriver);
    let (flow, a) = flow.step(BrowserEvent::Done);
    assert_eq!(a, BrowserAction::CreateDriver { headless: true });
    let (flow, a) = flow.step(BrowserEvent::Done);
    assert_eq!(a, BrowserAction::Goto(Page::Login));
    let (flow, a) = flow.step(BrowserEvent::Done);
    assert_eq!(a, BrowserAction::WaitForInterrupt);
    let (flow, a) = flow.step(BrowserEvent::Done);
    assert_eq!(a, BrowserAction::Quit);
    let (flow, a) = flow.step(BrowserEvent::Failed(AppError::Browser("quit".to_owned())));
    assert_eq!(a, BrowserAction::Finish);
    assert_eq!(flow.into_result(), Ok(()));
}
