//! The vocabulary between the browser flows and the code that drives Chrome:
//! each flow is a state machine that, given what the last action produced,
//! names the next action.
use vstd::prelude::*;

use crate::errors::AppError;
use crate::models::JobListing;
use crate::services::selectors::LocatorSet;
use crate::utils::captcha::CAPTCHA_SCREENSHOT_FILE;

verus! {

/// Milliseconds of the human-like pause before each navigation.
pub const HUMAN_DELAY_MS: u64 = 5000;

/// Milliseconds between two polls of a page's state.
pub const POLL_INTERVAL_MS: u64 = 500;

/// Milliseconds between two checks that the browser window is still open.
pub const CLOSE_CHECK_INTERVAL_MS: u64 = 1000;

/// What a scan over a locator list looks for.
#[derive(Debug, Clone, Copy, PartialEq, Eq, Structural)]
pub enum ScanGoal {
    /// Whether any locator matches at least one element.
    AnyPresent,
    /// Whether any matched element is displayed.
    AnyDisplayed,
    /// The first element found by a single-element lookup.
    FirstPresent,
    /// All elements of the first locator that matches any.
    FirstNonEmpty,
    /// The first matched element that is displayed and enabled.
    FirstInteractable,
    /// Click the first matched element that is displayed and enabled and
    /// takes the click.
    ClickFirstInteractable,
}

/// The locators a scan runs over.
#[derive(Debug, Clone, Copy, PartialEq, Eq, Structural)]
pub enum ScanTarget {
    Group(LocatorSet),
    /// The controls that select the requested resume.
    ResumeControls,
}

/// What a scan found.
#[derive(Debug, Clone, PartialEq, Eq)]
pub enum ScanOutcome {
    /// A matching (or displayed) element exists.
    Found,
    /// Nothing matched.
    NotFound,
    /// Element `elem` of the elements matched by locator `loc`.
    Element { loc: usize, elem: usize },
    /// All `count` elements matched by locator `loc`.
    Elements { loc: usize, count: usize },
    /// The click was made.
    Clicked,
    /// The lookup failed.
    Error(AppError),
    /// A lookup or the click failed.
    ClickError(AppError),
    /// No displayed, enabled element took the click.
    NoCandidate,
}

/// The pages a flow opens.
#[derive(Debug, Clone, Copy, PartialEq, Eq, Structural)]
pub enum Page {
    /// The search results page of the request.
    SearchResults,
    /// The vacancy being applied to.
    Vacancy,
    /// The page of the listing with this index.
    Listing(usize),
    /// The HH.ru login page.
    Login,
}

/// The page states a flow waits for.
#[derive(Debug, Clone, Copy, PartialEq, Eq, Structural)]
pub enum PageState {
    /// Result cards, or the empty-result message.
    SearchResults,
    /// The respond controls of a vacancy.
    VacancyPage,
    /// The description of a vacancy.
    Description,
    /// The response form or popup.
    ApplyForm,
}

/// The screenshots a flow takes, saved under the profile's `screenshots`
/// directory.
#[derive(Debug, Clone, Copy, PartialEq, Eq, Structural)]
pub enum Shot {
    Captcha,
    DescriptionTimeout,
    ApplyError,
    ApplyBeforeClick,
    ApplyModal,
    ApplyReadyForReview,
}

/// The file name of each screenshot.
pub open spec fn shot_file_name(shot: Shot) -> Seq<char> {
    match shot {
        Shot::Captcha => CAPTCHA_SCREENSHOT_FILE@,
        Shot::DescriptionTimeout => "description_timeout.png"@,
        Shot::ApplyError => "apply_error.png"@,
        Shot::ApplyBeforeClick => "apply_before_click.png"@,
        Shot::ApplyModal => "apply_modal.png"@,
        Shot::ApplyReadyForReview => "apply_ready_for_review.png"@,
    }
}

impl Shot {
    /// The file name of the screenshot.
    pub fn file_name(self) -> (r: &'static str)
        ensures
            r@ == shot_file_name(self),
    {
        match self {
            Shot::Captcha => CAPTCHA_SCREENSHOT_FILE,
            Shot::DescriptionTimeout => "description_timeout.png",
            Shot::ApplyError => "apply_error.png",
            Shot::ApplyBeforeClick => "apply_before_click.png",
            Shot::ApplyModal => "apply_modal.png",
            Shot::ApplyReadyForReview => "apply_ready_for_review.png",
        }
    }
}

/// An action for the driving code to perform.
#[derive(Debug, Clone, Copy, PartialEq, Eq, Structural)]
pub enum BrowserAction {
    /// Wait this many milliseconds.
    Sleep(u64),
    /// Ask ChromeDriver's status endpoint whether it is available.
    CheckDriver,
    /// Start a WebDriver session with the persistent profile.
    CreateDriver { headless: bool },
    /// Start a deadline this many milliseconds away; until `StopTimer`, an
    /// action that is still running at the deadline is abandoned with
    /// `TimedOut`.
    StartTimer(u64),
    /// End the deadline.
    StopTimer,
    /// Note a deadline this many milliseconds away, for `CheckDeadline`.
    StartDeadline(u64),
    /// Whether the noted deadline has passed.
    CheckDeadline,
    /// Navigate to a page.
    Goto(Page),
    /// Read the address of the current page.
    ReadCurrentUrl,
    /// Wait for a page state (the page-wait machine).
    WaitFor(PageState),
    /// Look for CAPTCHA indicators (the CAPTCHA machine).
    DetectCaptcha,
    /// Save a screenshot.
    Screenshot(Shot),
    /// Scan a locator list (the scan machine), relative to the page.
    Probe(ScanGoal, ScanTarget),
    /// Scan a locator list inside the current result card.
    ProbeCard(ScanGoal, LocatorSet),
    /// Look up locator `loc`'s elements.
    FindAll(usize),
    /// Look up locator `loc`'s first element.
    Find(usize),
    /// Whether element `elem` of the last lookup is displayed.
    IsDisplayed(usize),
    /// Whether element `elem` of the last lookup is enabled.
    IsEnabled(usize),
    /// Scroll element `elem` of the last lookup into view.
    ScrollIntoView(usize),
    /// Click element `elem` of the last lookup.
    Click(usize),
    /// Extract the listing of result card `card` (the card machine).
    ExtractCard(usize),
    /// Read the text of the element found last.
    ReadText,
    /// Read the `href` of the element found last.
    ReadHref,
    /// Click the element found last.
    ClickMatched,
    /// Clear the element found last.
    ClearMatched,
    /// Type the cover letter into the element found last.
    TypeCoverLetter,
    /// List the browser's open windows.
    ListWindows,
    /// Wait until the user closes the browser (the close-watch machine).
    WaitForManualClose,
    /// Wait for Ctrl+C in the terminal.
    WaitForInterrupt,
    /// End the WebDriver session.
    Quit,
    /// The machine has finished; its result is in its state.
    Finish,
}

/// What an action produced.
#[derive(Debug, Clone, PartialEq, Eq)]
pub enum BrowserEvent {
    /// The action completed.
    Done,
    /// The action failed.
    Failed(AppError),
    /// The deadline passed while the action ran.
    TimedOut,
    /// A yes/no answer.
    Flag(bool),
    /// A number of elements.
    Count(usize),
    /// The element was not found (a single-element lookup).
    Missing,
    /// The outcome of a scan.
    Scan(ScanOutcome),
    /// A text.
    Text(String),
    /// An optional attribute value.
    Attr(Option<String>),
    /// The listing of a result card, if the card makes one.
    Card(Option<JobListing>),
}

} // verus!
