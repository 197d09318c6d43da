//! The search flow: a human-like pause, the search page, its result cards,
//! and optionally each vacancy's description.
use vstd::prelude::*;

use crate::errors::AppError;
use crate::models::JobListing;
use crate::services::actions::{
    BrowserAction, BrowserEvent, Page, PageState, ScanGoal, ScanOutcome, ScanTarget, Shot,
    HUMAN_DELAY_MS,
};
use crate::services::browser::clean_text;
use crate::services::selectors::LocatorSet;
use crate::text::collapse_whitespace;

verus! {

/// Where the search flow stands.
#[derive(Debug, Clone, Copy, PartialEq, Eq, Structural)]
pub enum SearchStage {
    /// The pause before navigating.
    Pause,
    CheckDriver,
    CreateDriver,
    /// Starting the page deadline for the search page.
    StartTimer,
    Open,
    ReadAddress,
    WaitResults,
    Captcha,
    CaptchaShot,
    FindCards,
    /// Reading result card `k`.
    ReadCard(usize),
    /// Ending the search page deadline.
    StopTimer,
    /// The pause before opening listing `i`.
    DescPause(usize),
    DescTimer(usize),
    DescOpen(usize),
    DescWait(usize),
    DescCaptcha(usize),
    DescCaptchaShot(usize),
    /// Looking up the description element.
    DescFind(usize),
    DescRead(usize),
    /// Ending listing `i`'s deadline.
    DescStop(usize),
    /// The screenshot after a description timed out.
    DescShot(usize),
    Quit,
    Finished,
}

/// How reading one description ended.
#[derive(Debug, Clone, PartialEq, Eq)]
pub enum DescOutcome {
    /// The description element's text, as read.
    Raw(String),
    /// The page has no description element.
    Blank,
    Failed(AppError),
    TimedOut,
}

/// What one listing's description becomes.
#[derive(Debug, Clone, PartialEq, Eq)]
pub enum DescText {
    /// The description element's text, as read.
    Read(String),
    /// The page has no description element: the description is empty.
    Blank,
    /// Reading failed or timed out: the description stays as it was.
    Unread,
}

/// The search flow's state.
#[derive(Debug, Clone, PartialEq, Eq)]
pub struct SearchFlow {
    pub stage: SearchStage,
    /// The search page address.
    pub search_url: String,
    pub headless: bool,
    pub page_timeout: u64,
    pub include_description: bool,
    /// The number of result cards found.
    pub cards: usize,
    /// The listings read from the cards.
    pub listings: Vec<JobListing>,
    /// The description text read for each listing processed so far.
    pub descriptions: Vec<DescText>,
    /// The error the search ends with, once there is one.
    pub error: Option<AppError>,
    /// How reading the current description ended.
    pub pending: Option<DescOutcome>,
}

/// The search flow's state, with its vectors as sequences.
pub struct SearchFlowView {
    pub stage: SearchStage,
    pub search_url: Seq<char>,
    pub headless: bool,
    pub page_timeout: u64,
    pub include_description: bool,
    pub cards: usize,
    pub listings: Seq<JobListing>,
    pub descriptions: Seq<DescText>,
    pub error: Option<AppError>,
    pub pending: Option<DescOutcome>,
}

impl View for SearchFlow {
    type V = SearchFlowView;

    open spec fn view(&self) -> SearchFlowView {
        SearchFlowView {
            stage: self.stage,
            search_url: self.search_url@,
            headless: self.headless,
            page_timeout: self.page_timeout,
            include_description: self.include_description,
            cards: self.cards,
            listings: self.listings@,
            descriptions: self.descriptions@,
            error: self.error,
            pending: self.pending,
        }
    }
}

/// A search flow before its first step: at the pause, with nothing read yet.
pub open spec fn search_initial(
    search_url: Seq<char>,
    headless: bool,
    page_timeout: u64,
    include_description: bool,
) -> SearchFlowView {
    SearchFlowView {
        stage: SearchStage::Pause,
        search_url,
        headless,
        page_timeout,
        include_description,
        cards: 0,
        listings: Seq::empty(),
        descriptions: Seq::empty(),
        error: None,
        pending: None,
    }
}

/// The action of each stage.
pub open spec fn search_action(s: SearchFlowView) -> BrowserAction {
    match s.stage {
        SearchStage::Pause => BrowserAction::Sleep(HUMAN_DELAY_MS),
        SearchStage::CheckDriver => BrowserAction::CheckDriver,
        SearchStage::CreateDriver => BrowserAction::CreateDriver { headless: s.headless },
        SearchStage::StartTimer => BrowserAction::StartTimer(s.page_timeout),
        SearchStage::Open => BrowserAction::Goto(Page::SearchResults),
        SearchStage::ReadAddress => BrowserAction::ReadCurrentUrl,
        SearchStage::WaitResults => BrowserAction::WaitFor(PageState::SearchResults),
        SearchStage::Captcha => BrowserAction::DetectCaptcha,
        SearchStage::CaptchaShot => BrowserAction::Screenshot(Shot::Captcha),
        SearchStage::FindCards => BrowserAction::Probe(
            ScanGoal::FirstNonEmpty,
            ScanTarget::Group(LocatorSet::ResultCards),
        ),
        SearchStage::ReadCard(k) => BrowserAction::ExtractCard(k),
        SearchStage::StopTimer => BrowserAction::StopTimer,
        SearchStage::DescPause(_) => BrowserAction::Sleep(HUMAN_DELAY_MS),
        SearchStage::DescTimer(_) => BrowserAction::StartTimer(s.page_timeout),
        SearchStage::DescOpen(i) => BrowserAction::Goto(Page::Listing(i)),
        SearchStage::DescWait(_) => BrowserAction::WaitFor(PageState::Description),
        SearchStage::DescCaptcha(_) => BrowserAction::DetectCaptcha,
        SearchStage::DescCaptchaShot(_) => BrowserAction::Screenshot(Shot::Captcha),
        SearchStage::DescFind(_) => BrowserAction::Probe(
            ScanGoal::FirstPresent,
            ScanTarget::Group(LocatorSet::DescriptionText),
        ),
        SearchStage::DescRead(_) => BrowserAction::ReadText,
        SearchStage::DescStop(_) => BrowserAction::StopTimer,
        SearchStage::DescShot(_) => BrowserAction::Screenshot(Shot::DescriptionTimeout),
        SearchStage::Quit => BrowserAction::Quit,
        SearchStage::Finished => BrowserAction::Finish,
    }
}

/// Moving to `stage`.
pub open spec fn search_at(s: SearchFlowView, stage: SearchStage) -> (SearchFlowView, BrowserAction) {
    let t = SearchFlowView { stage, ..s };
    (t, search_action(t))
}

/// Ending the search page's deadline with the error `err`.
pub open spec fn search_abort(s: SearchFlowView, err: AppError) -> (SearchFlowView, BrowserAction) {
    search_at(SearchFlowView { error: Some(err), ..s }, SearchStage::StopTimer)
}

/// Ending listing `i`'s deadline with outcome `o`.
pub open spec fn desc_stop(s: SearchFlowView, i: usize, o: DescOutcome) -> (SearchFlowView, BrowserAction) {
    search_at(SearchFlowView { pending: Some(o), ..s }, SearchStage::DescStop(i))
}

/// After card `k`: the next card, or the end of the search page.
pub open spec fn after_card(s: SearchFlowView, k: usize) -> (SearchFlowView, BrowserAction) {
    if k + 1 < s.cards {
        search_at(s, SearchStage::ReadCard((k + 1) as usize))
    } else {
        search_at(s, SearchStage::StopTimer)
    }
}

/// After listing `i`'s description: the next listing, or ending the session.
pub open spec fn after_desc(s: SearchFlowView, i: usize) -> (SearchFlowView, BrowserAction) {
    if i + 1 < s.listings.len() {
        search_at(s, SearchStage::DescPause((i + 1) as usize))
    } else {
        search_at(s, SearchStage::Quit)
    }
}

/// Whether an outcome calls for the timeout screenshot.
pub open spec fn timed_out(o: DescOutcome) -> bool {
    o == DescOutcome::TimedOut || o == DescOutcome::Failed(AppError::Timeout)
}

/// What an outcome makes of the description: the text read, empty when the
/// page has no description element, unchanged after a failure.
pub open spec fn desc_text(o: DescOutcome) -> DescText {
    match o {
        DescOutcome::Raw(t) => DescText::Read(t),
        DescOutcome::Blank => DescText::Blank,
        _ => DescText::Unread,
    }
}

/// The next state and action of the search flow after event `e`. An event
/// that the current action cannot produce leaves the flow as it is.
pub open spec fn search_next(s: SearchFlowView, e: BrowserEvent) -> (SearchFlowView, BrowserAction) {
    let same = search_at(s, s.stage);
    match s.stage {
        SearchStage::Pause => match e {
            BrowserEvent::Done => search_at(s, SearchStage::CheckDriver),
            _ => same,
        },
        SearchStage::CheckDriver => match e {
            BrowserEvent::Done => search_at(s, SearchStage::CreateDriver),
            BrowserEvent::Failed(err) => search_at(
                SearchFlowView { error: Some(err), ..s },
                SearchStage::Finished,
            ),
            _ => same,
        },
        SearchStage::CreateDriver => match e {
            BrowserEvent::Done => search_at(s, SearchStage::StartTimer),
            BrowserEvent::Failed(err) => search_at(
                SearchFlowView { error: Some(err), ..s },
                SearchStage::Finished,
            ),
            _ => same,
        },
        SearchStage::StartTimer => match e {
            BrowserEvent::Done => search_at(s, SearchStage::Open),
            _ => same,
        },
        SearchStage::Open => match e {
            BrowserEvent::Done => search_at(s, SearchStage::ReadAddress),
            BrowserEvent::Failed(err) => search_abort(s, err),
            BrowserEvent::TimedOut => search_abort(s, AppError::Timeout),
            _ => same,
        },
        SearchStage::ReadAddress => match e {
            BrowserEvent::Done => search_at(s, SearchStage::WaitResults),
            BrowserEvent::Failed(err) => search_abort(s, err),
            BrowserEvent::TimedOut => search_abort(s, AppError::Timeout),
            _ => same,
        },
        SearchStage::WaitResults => match e {
            BrowserEvent::Done => search_at(s, SearchStage::Captcha),
            BrowserEvent::Failed(err) => search_abort(s, err),
            BrowserEvent::TimedOut => search_abort(s, AppError::Timeout),
            _ => same,
        },
        SearchStage::Captcha => match e {
            BrowserEvent::Flag(true) => search_at(s, SearchStage::CaptchaShot),
            BrowserEvent::Flag(false) => search_at(s, SearchStage::FindCards),
            BrowserEvent::Failed(err) => search_abort(s, err),
            BrowserEvent::TimedOut => search_abort(s, AppError::Timeout),
            _ => same,
        },
        SearchStage::CaptchaShot => match e {
            BrowserEvent::Done | BrowserEvent::Failed(_) => search_abort(
                s,
                AppError::CaptchaDetected,
            ),
            BrowserEvent::TimedOut => search_abort(s, AppError::Timeout),
            _ => same,
        },
        SearchStage::FindCards => match e {
            BrowserEvent::Scan(ScanOutcome::Elements { count, .. }) => if count > 0 {
                search_at(SearchFlowView { cards: count, ..s }, SearchStage::ReadCard(0))
            } else {
                search_at(SearchFlowView { cards: 0, ..s }, SearchStage::StopTimer)
            },
            BrowserEvent::Scan(ScanOutcome::NotFound) => search_at(
                SearchFlowView { cards: 0, ..s },
                SearchStage::StopTimer,
            ),
            BrowserEvent::Scan(ScanOutcome::Error(err)) => search_abort(s, err),
            BrowserEvent::TimedOut => search_abort(s, AppError::Timeout),
            _ => same,
        },
        SearchStage::ReadCard(k) => match e {
            BrowserEvent::Card(Some(l)) => after_card(
                SearchFlowView { listings: s.listings.push(l), ..s },
                k,
            ),
            BrowserEvent::Card(None) | BrowserEvent::Failed(_) => after_card(s, k),
            BrowserEvent::TimedOut => search_abort(s, AppError::Timeout),
            _ => same,
        },
        SearchStage::StopTimer => match e {
            BrowserEvent::Done => if s.error is None && s.include_description && s.listings.len()
                > 0 {
                search_at(s, SearchStage::DescPause(0))
            } else {
                search_at(s, SearchStage::Quit)
            },
            _ => same,
        },
        SearchStage::DescPause(i) => match e {
            BrowserEvent::Done => search_at(s, SearchStage::DescTimer(i)),
            _ => same,
        },
        SearchStage::DescTimer(i) => match e {
            BrowserEvent::Done => search_at(s, SearchStage::DescOpen(i)),
            _ => same,
        },
        SearchStage::DescOpen(i) => match e {
            BrowserEvent::Done => search_at(s, SearchStage::DescWait(i)),
            BrowserEvent::Failed(err) => desc_stop(s, i, DescOutcome::Failed(err)),
            BrowserEvent::TimedOut => desc_stop(s, i, DescOutcome::TimedOut),
            _ => same,
        },
        SearchStage::DescWait(i) => match e {
            BrowserEvent::Done => search_at(s, SearchStage::DescCaptcha(i)),
            BrowserEvent::Failed(err) => desc_stop(s, i, DescOutcome::Failed(err)),
            BrowserEvent::TimedOut => desc_stop(s, i, DescOutcome::TimedOut),
            _ => same,
        },
        SearchStage::DescCaptcha(i) => match e {
            BrowserEvent::Flag(true) => search_at(s, SearchStage::DescCaptchaShot(i)),
            BrowserEvent::Flag(false) => search_at(s, SearchStage::DescFind(i)),
            BrowserEvent::Failed(err) => desc_stop(s, i, DescOutcome::Failed(err)),
            BrowserEvent::TimedOut => desc_stop(s, i, DescOutcome::TimedOut),
            _ => same,
        },
        SearchStage::DescCaptchaShot(i) => match e {
            BrowserEvent::Done | BrowserEvent::Failed(_) => desc_stop(
                s,
                i,
                DescOutcome::Failed(AppError::CaptchaDetected),
            ),
            BrowserEvent::TimedOut => desc_stop(s, i, DescOutcome::TimedOut),
            _ => same,
        },
        SearchStage::DescFind(i) => match e {
            BrowserEvent::Scan(ScanOutcome::Element { .. }) => search_at(
                s,
                SearchStage::DescRead(i),
            ),
            BrowserEvent::Scan(ScanOutcome::NotFound) => desc_stop(s, i, DescOutcome::Blank),
            BrowserEvent::Scan(ScanOutcome::Error(err)) => desc_stop(
                s,
                i,
                DescOutcome::Failed(err),
            ),
            BrowserEvent::TimedOut => desc_stop(s, i, DescOutcome::TimedOut),
            _ => same,
        },
        SearchStage::DescRead(i) => match e {
            BrowserEvent::Text(t) => desc_stop(s, i, DescOutcome::Raw(t)),
            BrowserEvent::Failed(err) => desc_stop(s, i, DescOutcome::Failed(err)),
            BrowserEvent::TimedOut => desc_stop(s, i, DescOutcome::TimedOut),
            _ => same,
        },
        SearchStage::DescStop(i) => match e {
            BrowserEvent::Done => match s.pending {
                Some(o) => {
                    let t = SearchFlowView {
                        descriptions: s.descriptions.push(desc_text(o)),
                        pending: None,
                        ..s
                    };
                    if timed_out(o) {
                        search_at(t, SearchStage::DescShot(i))
                    } else {
                        after_desc(t, i)
                    }
                },
                None => after_desc(
                    SearchFlowView { descriptions: s.descriptions.push(DescText::Unread), ..s },
                    i,
                ),
            },
            _ => same,
        },
        SearchStage::DescShot(i) => match e {
            BrowserEvent::Done | BrowserEvent::Failed(_) => after_desc(s, i),
            _ => same,
        },
        SearchStage::Quit => match e {
            BrowserEvent::Done | BrowserEvent::Failed(_) => search_at(s, SearchStage::Finished),
            _ => same,
        },
        SearchStage::Finished => (s, BrowserAction::Finish),
    }
}

/// The counters of the flow agree with its stage.
pub open spec fn search_wf(v: SearchFlowView) -> bool {

    &&& match v.stage {
        SearchStage::ReadCard(k) => k < v.cards && v.descriptions.len() == 0 && v.listings.len()
            <= k,
        SearchStage::Pause | SearchStage::CheckDriver | SearchStage::CreateDriver
        | SearchStage::StartTimer | SearchStage::Open | SearchStage::ReadAddress
        | SearchStage::WaitResults | SearchStage::Captcha | SearchStage::CaptchaShot
        | SearchStage::FindCards => v.descriptions.len() == 0 && v.listings.len() == 0,
        SearchStage::StopTimer => v.descriptions.len() == 0,
        SearchStage::DescPause(i) | SearchStage::DescTimer(i) | SearchStage::DescOpen(i)
        | SearchStage::DescWait(i) | SearchStage::DescCaptcha(i)
        | SearchStage::DescCaptchaShot(i) | SearchStage::DescFind(i)
        | SearchStage::DescRead(i) | SearchStage::DescStop(i) => {
            &&& i < v.listings.len()
            &&& v.descriptions.len() == i
        },
        SearchStage::DescShot(i) => {
            &&& i < v.listings.len()
            &&& v.descriptions.len() == i + 1
        },
        _ => true,
    }
    &&& v.descriptions.len() <= v.listings.len()
    &&& v.listings.len() <= v.cards
}

proof fn lemma_search_next_wf(s: SearchFlowView, e: BrowserEvent)
    requires
        search_wf(s),
    ensures
        search_wf(search_next(s, e).0),
{
    if let SearchStage::DescStop(i) = s.stage {
        if e == BrowserEvent::Done {
            let d = match s.pending {
                Some(o) => desc_text(o),
                None => DescText::Unread,
            };
            let t = SearchFlowView { descriptions: s.descriptions.push(d), pending: None, ..s };
            assert(t.descriptions.len() == i + 1);
            assert(search_wf(after_desc(t, i).0));
            if s.pending is Some && timed_out(s.pending->0) {
                assert(search_next(s, e).0 == search_at(t, SearchStage::DescShot(i)).0);
            } else {
                assert(search_next(s, e).0 == after_desc(t, i).0);
            }
        }
    }
}

impl SearchFlow {
    /// The counters of the flow agree with its stage.
    pub open spec fn wf(&self) -> bool {
        search_wf(self@)
    }

    fn action(&self) -> (r: BrowserAction)
        ensures
            r == search_action(self@),
    {
        match self.stage {
            SearchStage::Pause => BrowserAction::Sleep(HUMAN_DELAY_MS),
            SearchStage::CheckDriver => BrowserAction::CheckDriver,
            SearchStage::CreateDriver => BrowserAction::CreateDriver { headless: self.headless },
            SearchStage::StartTimer => BrowserAction::StartTimer(self.page_timeout),
            SearchStage::Open => BrowserAction::Goto(Page::SearchResults),
            SearchStage::ReadAddress => BrowserAction::ReadCurrentUrl,
            SearchStage::WaitResults => BrowserAction::WaitFor(PageState::SearchResults),
            SearchStage::Captcha => BrowserAction::DetectCaptcha,
            SearchStage::CaptchaShot => BrowserAction::Screenshot(Shot::Captcha),
            SearchStage::FindCards => BrowserAction::Probe(
                ScanGoal::FirstNonEmpty,
                ScanTarget::Group(LocatorSet::ResultCards),
            ),
            SearchStage::ReadCard(k) => BrowserAction::ExtractCard(k),
            SearchStage::StopTimer => BrowserAction::StopTimer,
            SearchStage::DescPause(_) => BrowserAction::Sleep(HUMAN_DELAY_MS),
            SearchStage::DescTimer(_) => BrowserAction::StartTimer(self.page_timeout),
            SearchStage::DescOpen(i) => BrowserAction::Goto(Page::Listing(i)),
            SearchStage::DescWait(_) => BrowserAction::WaitFor(PageState::Description),
            SearchStage::DescCaptcha(_) => BrowserAction::DetectCaptcha,
            SearchStage::DescCaptchaShot(_) => BrowserAction::Screenshot(Shot::Captcha),
            SearchStage::DescFind(_) => BrowserAction::Probe(
                ScanGoal::FirstPresent,
                ScanTarget::Group(LocatorSet::DescriptionText),
            ),
            SearchStage::DescRead(_) => BrowserAction::ReadText,
            SearchStage::DescStop(_) => BrowserAction::StopTimer,
            SearchStage::DescShot(_) => BrowserAction::Screenshot(Shot::DescriptionTimeout),
            SearchStage::Quit => BrowserAction::Quit,
            SearchStage::Finished => BrowserAction::Finish,
        }
    }

    fn at(self, stage: SearchStage) -> (r: (SearchFlow, BrowserAction))
        ensures
            (r.0@, r.1) == search_at(self@, stage),
    {
        let t = SearchFlow { stage, ..self };
        let a = t.action();
        (t, a)
    }

    fn abort(self, err: AppError) -> (r: (SearchFlow, BrowserAction))
        ensures
            (r.0@, r.1) == search_abort(self@, err),
    {
        SearchFlow { error: Some(err), ..self }.at(SearchStage::StopTimer)
    }

    fn stop_desc(self, i: usize, o: DescOutcome) -> (r: (SearchFlow, BrowserAction))
        ensures
            (r.0@, r.1) == desc_stop(self@, i, o),
    {
        SearchFlow { pending: Some(o), ..self }.at(SearchStage::DescStop(i))
    }

    fn next_card(self, k: usize) -> (r: (SearchFlow, BrowserAction))
        requires
            k < self.cards,
        ensures
            (r.0@, r.1) == after_card(self@, k),
    {
        if k + 1 < self.cards {
            self.at(SearchStage::ReadCard(k + 1))
        } else {
            self.at(SearchStage::StopTimer)
        }
    }

    fn next_desc(self, i: usize) -> (r: (SearchFlow, BrowserAction))
        requires
            i < self.listings@.len(),
        ensures
            (r.0@, r.1) == after_desc(self@, i),
    {
        if i < self.listings.len() - 1 {
            self.at(SearchStage::DescPause(i + 1))
        } else {
            self.at(SearchStage::Quit)
        }
    }

    /// A search flow and its first action: the human-like pause.
    pub fn start(search_url: String, headless: bool, page_timeout: u64, include_description: bool) -> (r: (
        SearchFlow,
        BrowserAction,
    ))
        ensures
            r.0@ == search_initial(search_url@, headless, page_timeout, include_description),
            r.0.stage == SearchStage::Pause,
            r.0.search_url == search_url,
            r.0.headless == headless,
            r.0.page_timeout == page_timeout,
            r.0.include_description == include_description,
            r.0.cards == 0,
            r.0.listings@.len() == 0,
            r.0.descriptions@.len() == 0,
            r.0.error is None,
            r.0.pending is None,
            r.0.wf(),
            r.1 == BrowserAction::Sleep(HUMAN_DELAY_MS),
    {
        let s = SearchFlow {
            stage: SearchStage::Pause,
            search_url,
            headless,
            page_timeout,
            include_description,
            cards: 0,
            listings: Vec::new(),
            descriptions: Vec::new(),
            error: None,
            pending: None,
        };
        (s, BrowserAction::Sleep(HUMAN_DELAY_MS))
    }

    /// The next state and action after event `e`.
    pub fn step(self, e: BrowserEvent) -> (r: (SearchFlow, BrowserAction))
        requires
            self.wf(),
        ensures
            (r.0@, r.1) == search_next(self@, e),
            r.0.wf(),
    {
        proof {
            lemma_search_next_wf(self@, e);
        }
        let stage = self.stage;
        match stage {
            SearchStage::Pause => match e {
                BrowserEvent::Done => self.at(SearchStage::CheckDriver),
                _ => self.at(stage),
            },
            SearchStage::CheckDriver | SearchStage::CreateDriver => match e {
                BrowserEvent::Done => {
                    if stage == SearchStage::CheckDriver {
                        self.at(SearchStage::CreateDriver)
                    } else {
                        self.at(SearchStage::StartTimer)
                    }
                },
                BrowserEvent::Failed(err) => SearchFlow { error: Some(err), ..self }.at(
                    SearchStage::Finished,
                ),
                _ => self.at(stage),
            },
            SearchStage::StartTimer => match e {
                BrowserEvent::Done => self.at(SearchStage::Open),
                _ => self.at(stage),
            },
            SearchStage::Open | SearchStage::ReadAddress | SearchStage::WaitResults => match e {
                BrowserEvent::Done => {
                    if stage == SearchStage::Open {
                        self.at(SearchStage::ReadAddress)
                    } else if stage == SearchStage::ReadAddress {
                        self.at(SearchStage::WaitResults)
                    } else {
                        self.at(SearchStage::Captcha)
                    }
                },
                BrowserEvent::Failed(err) => self.abort(err),
                BrowserEvent::TimedOut => self.abort(AppError::Timeout),
                _ => self.at(stage),
            },
            SearchStage::Captcha => match e {
                BrowserEvent::Flag(true) => self.at(SearchStage::CaptchaShot),
                BrowserEvent::Flag(false) => self.at(SearchStage::FindCards),
                BrowserEvent::Failed(err) => self.abort(err),
                BrowserEvent::TimedOut => self.abort(AppError::Timeout),
                _ => self.at(stage),
            },
            SearchStage::CaptchaShot => match e {
                BrowserEvent::Done | BrowserEvent::Failed(_) => self.abort(
                    AppError::CaptchaDetected,
                ),
                BrowserEvent::TimedOut => self.abort(AppError::Timeout),
                _ => self.at(stage),
            },
            SearchStage::FindCards => match e {
                BrowserEvent::Scan(ScanOutcome::Elements { count, .. }) => {
                    if count > 0 {
                        SearchFlow { cards: count, ..self }.at(SearchStage::ReadCard(0))
                    } else {
                        SearchFlow { cards: 0, ..self }.at(SearchStage::StopTimer)
                    }
                },
                BrowserEvent::Scan(ScanOutcome::NotFound) => SearchFlow { cards: 0, ..self }.at(
                    SearchStage::StopTimer,
                ),
                BrowserEvent::Scan(ScanOutcome::Error(err)) => self.abort(err),
                BrowserEvent::TimedOut => self.abort(AppError::Timeout),
                _ => self.at(stage),
            },
            SearchStage::ReadCard(k) => match e {
                BrowserEvent::Card(Some(l)) => {
                    let mut s = self;
                    s.listings.push(l);
                    s.next_card(k)
                },
                BrowserEvent::Card(None) | BrowserEvent::Failed(_) => self.next_card(k),
                BrowserEvent::TimedOut => self.abort(AppError::Timeout),
                _ => self.at(stage),
            },
            SearchStage::StopTimer => match e {
                BrowserEvent::Done => {
                    if self.error.is_none() && self.include_description && self.listings.len()
                        > 0 {
                        self.at(SearchStage::DescPause(0))
                    } else {
                        self.at(SearchStage::Quit)
                    }
                },
                _ => self.at(stage),
            },
            SearchStage::DescPause(i) => match e {
                BrowserEvent::Done => self.at(SearchStage::DescTimer(i)),
                _ => self.at(stage),
            },
            SearchStage::DescTimer(i) => match e {
                BrowserEvent::Done => self.at(SearchStage::DescOpen(i)),
                _ => self.at(stage),
            },
            SearchStage::DescOpen(i) => match e {
                BrowserEvent::Done => self.at(SearchStage::DescWait(i)),
                BrowserEvent::Failed(err) => self.stop_desc(i, DescOutcome::Failed(err)),
                BrowserEvent::TimedOut => self.stop_desc(i, DescOutcome::TimedOut),
                _ => self.at(stage),
            },
            SearchStage::DescWait(i) => match e {
                BrowserEvent::Done => self.at(SearchStage::DescCaptcha(i)),
                BrowserEvent::Failed(err) => self.stop_desc(i, DescOutcome::Failed(err)),
                BrowserEvent::TimedOut => self.stop_desc(i, DescOutcome::TimedOut),
                _ => self.at(stage),
            },
            SearchStage::DescCaptcha(i) => match e {
                BrowserEvent::Flag(true) => self.at(SearchStage::DescCaptchaShot(i)),
                BrowserEvent::Flag(false) => self.at(SearchStage::DescFind(i)),
                BrowserEvent::Failed(err) => self.stop_desc(i, DescOutcome::Failed(err)),
                BrowserEvent::TimedOut => self.stop_desc(i, DescOutcome::TimedOut),
                _ => self.at(stage),
            },
            SearchStage::DescCaptchaShot(i) => match e {
                BrowserEvent::Done | BrowserEvent::Failed(_) => self.stop_desc(
                    i,
                    DescOutcome::Failed(AppError::CaptchaDetected),
                ),
                BrowserEvent::TimedOut => self.stop_desc(i, DescOutcome::TimedOut),
                _ => self.at(stage),
            },
            SearchStage::DescFind(i) => match e {
                BrowserEvent::Scan(ScanOutcome::Element { .. }) => self.at(
                    SearchStage::DescRead(i),
                ),
                BrowserEvent::Scan(ScanOutcome::NotFound) => self.stop_desc(i, DescOutcome::Blank),
                BrowserEvent::Scan(ScanOutcome::Error(err)) => self.stop_desc(
                    i,
                    DescOutcome::Failed(err),
                ),
                BrowserEvent::TimedOut => self.stop_desc(i, DescOutcome::TimedOut),
                _ => self.at(stage),
            },
            SearchStage::DescRead(i) => match e {
                BrowserEvent::Text(t) => self.stop_desc(i, DescOutcome::Raw(t)),
                BrowserEvent::Failed(err) => self.stop_desc(i, DescOutcome::Failed(err)),
                BrowserEvent::TimedOut => self.stop_desc(i, DescOutcome::TimedOut),
                _ => self.at(stage),
            },
            SearchStage::DescStop(i) => match e {
                BrowserEvent::Done => {
                    let mut s = self;
                    let pending = s.pending;
                    s.pending = None;
                    match pending {
                        Some(o) => {
                            let shot = match &o {
                                DescOutcome::TimedOut => true,
                                DescOutcome::Failed(AppError::Timeout) => true,
                                _ => false,
                            };
                            let text = match o {
                                DescOutcome::Raw(t) => DescText::Read(t),
                                DescOutcome::Blank => DescText::Blank,
                                _ => DescText::Unread,
                            };
                            s.descriptions.push(text);
                            if shot {
                                s.at(SearchStage::DescShot(i))
                            } else {
                                s.next_desc(i)
                            }
                        },
                        None => {
                            s.descriptions.push(DescText::Unread);
                            s.next_desc(i)
                        },
                    }
                },
                _ => self.at(stage),
            },
            SearchStage::DescShot(i) => match e {
                BrowserEvent::Done | BrowserEvent::Failed(_) => self.next_desc(i),
                _ => self.at(stage),
            },
            SearchStage::Quit => match e {
                BrowserEvent::Done | BrowserEvent::Failed(_) => self.at(SearchStage::Finished),
                _ => self.at(stage),
            },
            SearchStage::Finished => (self, BrowserAction::Finish),
        }
    }
}

/// The description a listing ends up with: the cleaned text read for it,
/// empty when its page had no description element, or else the description
/// it had.
pub open spec fn final_description(l: JobListing, d: Option<DescText>) -> Seq<char> {
    match d {
        Some(DescText::Read(t)) => collapse_whitespace(t@),
        Some(DescText::Blank) => Seq::empty(),
        _ => l.description@,
    }
}

/// The description read for listing `i`, if it was processed.
pub open spec fn description_at(descriptions: Seq<DescText>, i: int) -> Option<DescText> {
    if i < descriptions.len() {
        Some(descriptions[i])
    } else {
        None
    }
}

impl SearchFlow {
    /// The search result: the error the flow ended with, or the listings of
    /// the result cards, in order, each with the cleaned description read for
    /// it (title, link and employer as read from the card).
    pub fn into_result(self) -> (r: Result<Vec<JobListing>, AppError>)
        ensures
            self.error is Some ==> r == Err::<Vec<JobListing>, AppError>(self.error->0),
            self.error is None ==> r is Ok && r->Ok_0@.len() == self.listings@.len() && forall|
                i: int,
            |
                0 <= i < self.listings@.len() ==> {
                    let l = self.listings@[i];
                    let o = #[trigger] r->Ok_0@[i];
                    &&& o.title == l.title
                    &&& o.url == l.url
                    &&& o.employer == l.employer
                    &&& o.description@ == final_description(
                        l,
                        description_at(self.descriptions@, i),
                    )
                },
    {
        if let Some(err) = self.error {
            return Err(err);
        }
        let ghost listings = self.listings@;
        let ghost descriptions = self.descriptions@;
        let mut rest = self.listings;
        let mut descs = self.descriptions;
        let mut out: Vec<JobListing> = Vec::new();
        let n = rest.len();
        let mut i: usize = 0;
        while i < n
            invariant
                i <= n,
                n == listings.len(),
                rest@ == listings.skip(i as int),
                i <= descriptions.len() ==> descs@ == descriptions.skip(i as int),
                i > descriptions.len() ==> descs@.len() == 0,
                out@.len() == i,
                forall|k: int|
                    0 <= k < i ==> {
                        let l = listings[k];
                        let o = #[trigger] out@[k];
                        &&& o.title == l.title
                        &&& o.url == l.url
                        &&& o.employer == l.employer
                        &&& o.description@ == final_description(
                            l,
                            description_at(descriptions, k),
                        )
                    },
            decreases n - i,
        {
            let mut l = rest.remove(0);
            assert(l == listings[i as int]);
            if descs.len() > 0 {
                let d = descs.remove(0);
                assert(i < descriptions.len());
                assert(d == descriptions[i as int]);
                match d {
                    DescText::Read(raw) => {
                        l.description = clean_text(raw);
                    },
                    DescText::Blank => {
                        l.description = String::new();
                    },
                    DescText::Unread => {},
                }
            } else {
                assert(i >= descriptions.len());
            }
            out.push(l);
            i = i + 1;
            assert(rest@ =~= listings.skip(i as int));
            proof {
                if i <= descriptions.len() {
                    assert(descs@ =~= descriptions.skip(i as int));
                }
            }
        }
        Ok(out)
    }
}

/// A CAPTCHA on the search page ends the search: after a screenshot the
/// deadline is ended and the browser session closed, and the search fails with
/// `CaptchaDetected`; no result card is read.
pub proof fn law_search_captcha_stops(
    s: SearchFlowView,
    shot: BrowserEvent,
    stop: BrowserEvent,
    quit: BrowserEvent,
)
    requires
        s.stage == SearchStage::Captcha,
        search_wf(s),
        shot == BrowserEvent::Done || shot is Failed,
        stop == BrowserEvent::Done,
        quit == BrowserEvent::Done || quit is Failed,
    ensures
        ({
            let (s1, a1) = search_next(s, BrowserEvent::Flag(true));
            let (s2, a2) = search_next(s1, shot);
            let (s3, a3) = search_next(s2, stop);
            let (s4, a4) = search_next(s3, quit);
            &&& a1 == BrowserAction::Screenshot(Shot::Captcha)
            &&& a2 == BrowserAction::StopTimer
            &&& a3 == BrowserAction::Quit
            &&& a4 == BrowserAction::Finish
            &&& s4.stage == SearchStage::Finished
            &&& s4.error == Some(AppError::CaptchaDetected)
            &&& s4.listings.len() == 0
        }),
{
}

/// A search page that does not load within the page timeout ends the search:
/// the deadline is ended, the browser session closed, and the search fails
/// with `Timeout`.
pub proof fn law_search_timeout_stops(s: SearchFlowView, quit: BrowserEvent)
    requires
        s.stage == SearchStage::Open || s.stage == SearchStage::ReadAddress || s.stage
            == SearchStage::WaitResults || s.stage == SearchStage::Captcha || s.stage
            == SearchStage::CaptchaShot || s.stage == SearchStage::FindCards || s.stage is ReadCard,
        search_wf(s),
        quit == BrowserEvent::Done || quit is Failed,
    ensures
        ({
            let (s1, a1) = search_next(s, BrowserEvent::TimedOut);
            let (s2, a2) = search_next(s1, BrowserEvent::Done);
            let (s3, a3) = search_next(s2, quit);
            &&& a1 == BrowserAction::StopTimer
            &&& a2 == BrowserAction::Quit
            &&& a3 == BrowserAction::Finish
            &&& s3.error == Some(AppError::Timeout)
        }),
{
}

/// Once the browser session exists, the search finishes only by closing it:
/// the step that finishes the flow is the answer to `Quit`, unless the session
/// could not be made at all.
pub proof fn law_search_closes_session(s: SearchFlowView, e: BrowserEvent)
    requires
        s.stage != SearchStage::Finished,
        search_next(s, e).1 == BrowserAction::Finish,
    ensures
        s.stage == SearchStage::Quit || ((s.stage == SearchStage::CheckDriver || s.stage
            == SearchStage::CreateDriver) && e is Failed),
{
}

/// The stages that read vacancy descriptions.
pub open spec fn reads_descriptions(stage: SearchStage) -> bool {
    match stage {
        SearchStage::DescPause(_) | SearchStage::DescTimer(_) | SearchStage::DescOpen(_)
        | SearchStage::DescWait(_) | SearchStage::DescCaptcha(_) | SearchStage::DescCaptchaShot(_)
        | SearchStage::DescFind(_) | SearchStage::DescRead(_) | SearchStage::DescStop(_)
        | SearchStage::DescShot(_) => true,
        _ => false,
    }
}

/// Every page is opened only after the human-like pause before it: the search
/// page after the pause, the driver check, the session and the deadline (in
/// that order), and listing `i`'s page after its own pause and deadline.
pub proof fn law_search_pauses_before_navigating(s: SearchFlowView, e: BrowserEvent, i: usize)
    ensures
        ({
            let t = search_next(s, e).0;
            &&& t.stage == SearchStage::Open && s.stage != SearchStage::Open ==> s.stage
                == SearchStage::StartTimer && e == BrowserEvent::Done
            &&& t.stage == SearchStage::StartTimer && s.stage != SearchStage::StartTimer ==> s.stage
                == SearchStage::CreateDriver && e == BrowserEvent::Done
            &&& t.stage == SearchStage::CreateDriver && s.stage != SearchStage::CreateDriver
                ==> s.stage == SearchStage::CheckDriver && e == BrowserEvent::Done
            &&& t.stage == SearchStage::CheckDriver && s.stage != SearchStage::CheckDriver ==> s.stage
                == SearchStage::Pause && e == BrowserEvent::Done
            &&& t.stage == SearchStage::DescOpen(i) && s.stage != SearchStage::DescOpen(i) ==> s.stage
                == SearchStage::DescTimer(i) && e == BrowserEvent::Done
            &&& t.stage == SearchStage::DescTimer(i) && s.stage != SearchStage::DescTimer(i)
                ==> s.stage == SearchStage::DescPause(i) && e == BrowserEvent::Done
            &&& search_action(SearchFlowView { stage: SearchStage::Pause, ..s })
                == BrowserAction::Sleep(HUMAN_DELAY_MS)
            &&& search_action(SearchFlowView { stage: SearchStage::DescPause(i), ..s })
                == BrowserAction::Sleep(HUMAN_DELAY_MS)
        }),
{
}

/// A search that does not ask for descriptions never opens a vacancy page:
/// from a stage outside the description stages, it never enters one.
pub proof fn law_search_descriptions_only_when_asked(s: SearchFlowView, e: BrowserEvent)
    requires
        !s.include_description,
        !reads_descriptions(s.stage),
    ensures
        ({
            let (t, a) = search_next(s, e);
            &&& !t.include_description
            &&& !reads_descriptions(t.stage)
            &&& !(a matches BrowserAction::Goto(Page::Listing(_)))
        }),
{
}

/// The state of a search flow after it has answered each event of `events`
/// in turn.
pub open spec fn search_run(s: SearchFlowView, events: Seq<BrowserEvent>) -> SearchFlowView
    decreases events.len(),
{
    if events.len() == 0 {
        s
    } else {
        search_run(search_next(s, events[0]).0, events.drop_first())
    }
}

/// The number of times a run enters the stage that opens the search page.
pub open spec fn search_page_openings(s: SearchFlowView, events: Seq<BrowserEvent>) -> nat
    decreases events.len(),
{
    if events.len() == 0 {
        0
    } else {
        let t = search_next(s, events[0]).0;
        (if t.stage == SearchStage::Open && s.stage != SearchStage::Open {
            1nat
        } else {
            0nat
        }) + search_page_openings(t, events.drop_first())
    }
}

/// The stages before the search page is opened.
pub open spec fn before_search_page(stage: SearchStage) -> bool {
    stage == SearchStage::Pause || stage == SearchStage::CheckDriver || stage
        == SearchStage::CreateDriver || stage == SearchStage::StartTimer
}

/// The stages after the result cards have been read.
pub open spec fn cards_read(stage: SearchStage) -> bool {
    stage == SearchStage::StopTimer || stage == SearchStage::Quit || stage
        == SearchStage::Finished || reads_descriptions(stage)
}

/// The listings a sequence of card readings keeps, in order: the listing of
/// each card that makes one.
pub open spec fn card_listings(events: Seq<BrowserEvent>) -> Seq<JobListing>
    decreases events.len(),
{
    if events.len() == 0 {
        Seq::empty()
    } else {
        let rest = card_listings(events.drop_last());
        match events.last() {
            BrowserEvent::Card(Some(l)) => rest.push(l),
            _ => rest,
        }
    }
}

/// Each event is the answer to reading a card within the deadline: the
/// card's listing (if it makes one) or the failure to read it.
pub open spec fn card_answers(events: Seq<BrowserEvent>) -> bool {
    forall|j: int| 0 <= j < events.len() ==> (#[trigger] events[j] is Card || events[j] is Failed)
}

/// The search page address and the request's settings do not change along a
/// step; nor do the listings once the cards have been read, and a step from
/// there stays there.
proof fn lemma_search_step_keeps(s: SearchFlowView, e: BrowserEvent)
    ensures
        search_next(s, e).0.search_url == s.search_url,
        search_next(s, e).0.include_description == s.include_description,
        search_next(s, e).0.headless == s.headless,
        search_next(s, e).0.page_timeout == s.page_timeout,
        cards_read(s.stage) ==> cards_read(search_next(s, e).0.stage) && search_next(s, e).0.listings
            == s.listings,
{
}

proof fn lemma_search_run_push(s: SearchFlowView, events: Seq<BrowserEvent>, e: BrowserEvent)
    ensures
        search_run(s, events.push(e)) == search_next(search_run(s, events), e).0,
    decreases events.len(),
{
    if events.len() > 0 {
        assert(events.push(e)[0] == events[0]);
        assert(events.push(e).drop_first() =~= events.drop_first().push(e));
        lemma_search_run_push(search_next(s, events[0]).0, events.drop_first(), e);
    } else {
        assert(events.push(e)[0] == e);
        assert(events.push(e).drop_first() =~= Seq::<BrowserEvent>::empty());
        assert(search_run(search_next(s, e).0, Seq::<BrowserEvent>::empty()) == search_next(s, e).0);
    }
}

proof fn lemma_search_page_openings(s: SearchFlowView, events: Seq<BrowserEvent>)
    ensures
        search_page_openings(s, events) <= 1,
        !before_search_page(s.stage) ==> search_page_openings(s, events) == 0,
    decreases events.len(),
{
    if events.len() > 0 {
        lemma_search_page_openings(search_next(s, events[0]).0, events.drop_first());
    }
}

/// A whole search run, whatever the browser answers, keeps the search page
/// address it was started with and the request's settings; and it enters the
/// stage that opens the search page at most once.
pub proof fn law_search_run_opens_search_page_once(s: SearchFlowView, events: Seq<BrowserEvent>)
    requires
        s.stage == SearchStage::Pause,
    ensures
        search_run(s, events).search_url == s.search_url,
        search_run(s, events).include_description == s.include_description,
        search_page_openings(s, events) <= 1,
{
    lemma_search_page_openings(s, events);
    lemma_search_run_keeps(s, events);
}

proof fn lemma_search_run_keeps(s: SearchFlowView, events: Seq<BrowserEvent>)
    ensures
        search_run(s, events).search_url == s.search_url,
        search_run(s, events).include_description == s.include_description,
        cards_read(s.stage) ==> cards_read(search_run(s, events).stage) && search_run(
            s,
            events,
        ).listings == s.listings,
    decreases events.len(),
{
    if events.len() > 0 {
        lemma_search_step_keeps(s, events[0]);
        lemma_search_run_keeps(search_next(s, events[0]).0, events.drop_first());
    }
}

/// The pause comes before any browser work: until the first `Done`, a run
/// from the start stays at the pause and asks for nothing but the 5-second
/// sleep.
pub proof fn law_search_run_pauses_first(s: SearchFlowView, events: Seq<BrowserEvent>)
    requires
        s.stage == SearchStage::Pause,
        forall|j: int| 0 <= j < events.len() ==> #[trigger] events[j] != BrowserEvent::Done,
    ensures
        search_run(s, events).stage == SearchStage::Pause,
        search_action(search_run(s, events)) == BrowserAction::Sleep(HUMAN_DELAY_MS),
    decreases events.len(),
{
    if events.len() > 0 {
        assert(events[0] != BrowserEvent::Done);
        let t = search_next(s, events[0]).0;
        assert(t.stage == SearchStage::Pause);
        assert forall|j: int| 0 <= j < events.drop_first().len() implies #[trigger] events.drop_first()[j]
            != BrowserEvent::Done by {
            assert(events.drop_first()[j] == events[j + 1]);
        }
        law_search_run_pauses_first(t, events.drop_first());
    }
}

proof fn lemma_card_prefix(
    s: SearchFlowView,
    loc: usize,
    n: usize,
    cards: Seq<BrowserEvent>,
    k: int,
)
    requires
        s.stage == SearchStage::FindCards,
        search_wf(s),
        n > 0,
        cards.len() == n,
        card_answers(cards),
        0 <= k <= n,
    ensures
        ({
            let t = search_run(
                s,
                seq![BrowserEvent::Scan(ScanOutcome::Elements { loc, count: n })] + cards.take(k),
            );
            &&& k < n ==> t.stage == SearchStage::ReadCard(k as usize)
            &&& k == n ==> t.stage == SearchStage::StopTimer
            &&& t.listings == card_listings(cards.take(k))
            &&& t.cards == n
            &&& t.error == s.error
            &&& search_wf(t)
        }),
    decreases k,
{
    let scan = BrowserEvent::Scan(ScanOutcome::Elements { loc, count: n });
    if k == 0 {
        assert(seq![scan] + cards.take(0) =~= seq![scan]);
        assert(seq![scan].drop_first() =~= Seq::<BrowserEvent>::empty());
        assert(card_listings(cards.take(0)) =~= Seq::<JobListing>::empty());
        lemma_search_next_wf(s, scan);
        let t1 = search_next(s, scan).0;
        assert(seq![scan][0] == scan);
        assert(search_run(s, seq![scan]) == search_run(t1, seq![scan].drop_first()));
        assert(search_run(t1, Seq::<BrowserEvent>::empty()) == t1);
        assert(t1.stage == SearchStage::ReadCard(0));
        assert(t1.listings =~= Seq::<JobListing>::empty());
    } else {
        lemma_card_prefix(s, loc, n, cards, k - 1);
        let prev = seq![scan] + cards.take(k - 1);
        assert(seq![scan] + cards.take(k) =~= prev.push(cards[k - 1]));
        lemma_search_run_push(s, prev, cards[k - 1]);
        let t0 = search_run(s, prev);
        lemma_search_next_wf(t0, cards[k - 1]);
        assert(cards.take(k).drop_last() =~= cards.take(k - 1));
        assert(cards.take(k).last() == cards[k - 1]);
        assert(cards[k - 1] is Card || cards[k - 1] is Failed);
        let c = cards[k - 1];
        let t = search_next(t0, c).0;
        assert(t0.stage == SearchStage::ReadCard((k - 1) as usize));
        match c {
            BrowserEvent::Card(Some(l)) => {
                assert(card_listings(cards.take(k)) == card_listings(cards.take(k - 1)).push(l));
                assert(t.listings == t0.listings.push(l));
            },
            _ => {
                assert(card_listings(cards.take(k)) == card_listings(cards.take(k - 1)));
                assert(t.listings == t0.listings);
            },
        }
        if k < n {
            assert(t.stage == SearchStage::ReadCard(k as usize));
        } else {
            assert(t.stage == SearchStage::StopTimer);
        }
    }
}

/// The search keeps the result cards' listings in card order: whatever the
/// card lookup found (cards, none, or nothing matching), reading the cards
/// (each answered with the card's listing, none, or a failure) ends the
/// search page with exactly the listings of the cards that make one, in
/// order; a card that fails is left out without failing the search, and no
/// card means no listing. From then on the listings no longer change.
pub proof fn law_search_run_keeps_cards_in_order(
    s: SearchFlowView,
    found: ScanOutcome,
    cards: Seq<BrowserEvent>,
    rest: Seq<BrowserEvent>,
)
    requires
        s.stage == SearchStage::FindCards,
        search_wf(s),
        (found matches ScanOutcome::Elements { count, .. } && count == cards.len()) || (found
            == ScanOutcome::NotFound && cards.len() == 0),
        card_answers(cards),
    ensures
        ({
            let t = search_run(s, seq![BrowserEvent::Scan(found)] + cards);
            &&& t.stage == SearchStage::StopTimer
            &&& t.listings == card_listings(cards)
            &&& t.error == s.error
            &&& search_run(t, rest).listings == card_listings(cards)
        }),
{
    let scan = BrowserEvent::Scan(found);
    let t = search_run(s, seq![scan] + cards);
    if cards.len() == 0 {
        assert(seq![scan] + cards =~= seq![scan]);
        assert(seq![scan][0] == scan);
        assert(seq![scan].drop_first() =~= Seq::<BrowserEvent>::empty());
        let t1 = search_next(s, scan).0;
        assert(search_run(s, seq![scan]) == search_run(t1, seq![scan].drop_first()));
        assert(search_run(t1, Seq::<BrowserEvent>::empty()) == t1);
        assert(t1.stage == SearchStage::StopTimer);
        assert(card_listings(cards) =~= Seq::<JobListing>::empty());
        assert(t1.listings =~= Seq::<JobListing>::empty());
    } else {
        let (loc, n) = match found {
            ScanOutcome::Elements { loc, count } => (loc, count),
            _ => (0usize, 0usize),
        };
        assert(found == ScanOutcome::Elements { loc, count: n });
        lemma_card_prefix(s, loc, n, cards, n as int);
        assert(cards.take(n as int) =~= cards);
    }
    lemma_search_run_keeps(t, rest);
}

/// Every listing's description is read, in order: after listing `i`'s
/// description (or its timeout screenshot) the flow pauses and opens listing
/// `i + 1` while there is one, and it moves on to closing the session only
/// after the last listing.
pub proof fn law_search_describes_every_listing(s: SearchFlowView, i: usize, e: BrowserEvent)
    requires
        search_wf(s),
        e == BrowserEvent::Done || e is Failed,
    ensures
        s.stage == SearchStage::DescStop(i) && i + 1 < s.listings.len() && s.pending != Some(
            DescOutcome::TimedOut,
        ) && s.pending != Some(DescOutcome::Failed(AppError::Timeout)) ==> {
            let (t, a) = search_next(s, BrowserEvent::Done);
            t.stage == SearchStage::DescPause((i + 1) as usize) && a == BrowserAction::Sleep(
                HUMAN_DELAY_MS,
            )
        },
        s.stage == SearchStage::DescStop(i) && (s.pending == Some(DescOutcome::TimedOut)
            || s.pending == Some(DescOutcome::Failed(AppError::Timeout))) ==> search_next(
            s,
            BrowserEvent::Done,
        ).0.stage == SearchStage::DescShot(i),
        s.stage == SearchStage::DescShot(i) && i + 1 < s.listings.len() ==> search_next(s, e).0.stage
            == SearchStage::DescPause((i + 1) as usize),
        (s.stage == SearchStage::DescStop(i) || s.stage == SearchStage::DescShot(i))
            && search_next(s, e).0.stage == SearchStage::Quit ==> i + 1 == s.listings.len(),
        s.stage == SearchStage::DescPause(i) ==> search_next(s, BrowserEvent::Done).1
            == BrowserAction::StartTimer(s.page_timeout) && search_next(
            search_next(s, BrowserEvent::Done).0,
            BrowserEvent::Done,
        ).1 == BrowserAction::Goto(Page::Listing(i)),
{
}

/// With descriptions asked for, the first listing's page is visited once the
/// cards are read: a search page that gave listings and no error goes on to
/// the pause before listing 0.
pub proof fn law_search_describes_from_first_listing(s: SearchFlowView)
    requires
        s.stage == SearchStage::StopTimer,
        s.include_description,
        s.error is None,
        s.listings.len() > 0,
    ensures
        search_next(s, BrowserEvent::Done).0.stage == SearchStage::DescPause(0),
{
}

/// A search run where the browser answers: the pause, the driver check, the
/// session in the configured mode, the page deadline, the search page, its
/// address, the wait for results, the CAPTCHA check and the lookup of the
/// result cards, whose first card is then read.
pub proof fn law_search_happy_path(
    url: Seq<char>,
    headless: bool,
    page_timeout: u64,
    include_description: bool,
    loc: usize,
    n: usize,
)
    requires
        n > 0,
    ensures
        ({
            let s0 = search_initial(url, headless, page_timeout, include_description);
            let d = BrowserEvent::Done;
            let (s1, a1) = search_next(s0, d);
            let (s2, a2) = search_next(s1, d);
            let (s3, a3) = search_next(s2, d);
            let (s4, a4) = search_next(s3, d);
            let (s5, a5) = search_next(s4, d);
            let (s6, a6) = search_next(s5, d);
            let (s7, a7) = search_next(s6, d);
            let (s8, a8) = search_next(s7, BrowserEvent::Flag(false));
            let (s9, a9) = search_next(s8, BrowserEvent::Scan(ScanOutcome::Elements { loc, count: n }));
            &&& search_action(s0) == BrowserAction::Sleep(HUMAN_DELAY_MS)
            &&& a1 == BrowserAction::CheckDriver
            &&& a2 == BrowserAction::CreateDriver { headless }
            &&& a3 == BrowserAction::StartTimer(page_timeout)
            &&& a4 == BrowserAction::Goto(Page::SearchResults)
            &&& a5 == BrowserAction::ReadCurrentUrl
            &&& a6 == BrowserAction::WaitFor(PageState::SearchResults)
            &&& a7 == BrowserAction::DetectCaptcha
            &&& a8 == BrowserAction::Probe(
                ScanGoal::FirstNonEmpty,
                ScanTarget::Group(LocatorSet::ResultCards),
            )
            &&& a9 == BrowserAction::ExtractCard(0)
            &&& s9.cards == n
            &&& s9.error is None
            &&& s9.search_url == url
        }),
{
}

/// Reading one listing's description where the browser answers: the pause,
/// the deadline, the listing's page, the wait for its description, the
/// CAPTCHA check, the lookup of the description element and the reading of
/// its text, which becomes the listing's description once the deadline ends.
pub proof fn law_search_description_path(s: SearchFlowView, i: usize, found: ScanOutcome, text: String)
    requires
        s.stage == SearchStage::DescPause(i),
        search_wf(s),
        found is Element,
    ensures
        ({
            let d = BrowserEvent::Done;
            let (s1, a1) = search_next(s, d);
            let (s2, a2) = search_next(s1, d);
            let (s3, a3) = search_next(s2, d);
            let (s4, a4) = search_next(s3, d);
            let (s5, a5) = search_next(s4, BrowserEvent::Flag(false));
            let (s6, a6) = search_next(s5, BrowserEvent::Scan(found));
            let (s7, a7) = search_next(s6, BrowserEvent::Text(text));
            let (s8, a8) = search_next(s7, d);
            &&& a1 == BrowserAction::StartTimer(s.page_timeout)
            &&& a2 == BrowserAction::Goto(Page::Listing(i))
            &&& a3 == BrowserAction::WaitFor(PageState::Description)
            &&& a4 == BrowserAction::DetectCaptcha
            &&& a5 == BrowserAction::Probe(
                ScanGoal::FirstPresent,
                ScanTarget::Group(LocatorSet::DescriptionText),
            )
            &&& a6 == BrowserAction::ReadText
            &&& a7 == BrowserAction::StopTimer
            &&& s8.descriptions == s.descriptions.push(DescText::Read(text))
            &&& s8.listings == s.listings
            &&& final_description(s.listings[i as int], description_at(s8.descriptions, i as int))
                == collapse_whitespace(text@)
        }),
{
}

} // verus!
