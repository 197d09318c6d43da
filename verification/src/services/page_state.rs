//! Page-state machines: CAPTCHA detection and waiting for a page to reach a
//! usable state.
use vstd::prelude::*;

use crate::errors::AppError;
use crate::services::actions::{
    BrowserAction, BrowserEvent, PageState, ScanGoal, ScanOutcome, ScanTarget, POLL_INTERVAL_MS,
};
use crate::services::selectors::LocatorSet;

verus! {

/// Which group of CAPTCHA indicators is being looked for.
#[derive(Debug, Clone, Copy, PartialEq, Eq, Structural)]
pub enum CaptchaStage {
    Frames,
    Inputs,
    Robot,
    Finished,
}

/// CAPTCHA detection: visible CAPTCHA iframes, then visible CAPTCHA inputs,
/// then visible "not a robot" texts; the first group with a visible element
/// means a CAPTCHA.
#[derive(Debug, Clone, PartialEq, Eq)]
pub struct CaptchaCheck {
    pub stage: CaptchaStage,
    pub result: Option<Result<bool, AppError>>,
}

/// The indicator group looked for at each stage.
pub open spec fn captcha_group(stage: CaptchaStage) -> LocatorSet {
    match stage {
        CaptchaStage::Frames => LocatorSet::CaptchaFrames,
        CaptchaStage::Inputs => LocatorSet::CaptchaInputs,
        _ => LocatorSet::RobotIndicators,
    }
}

/// Looking for the indicators of `stage`.
pub open spec fn captcha_probe(stage: CaptchaStage) -> (CaptchaCheck, BrowserAction) {
    (
        CaptchaCheck { stage, result: None },
        BrowserAction::Probe(ScanGoal::AnyDisplayed, ScanTarget::Group(captcha_group(stage))),
    )
}

/// Finishing CAPTCHA detection with `r`.
pub open spec fn captcha_done(r: Result<bool, AppError>) -> (CaptchaCheck, BrowserAction) {
    (CaptchaCheck { stage: CaptchaStage::Finished, result: Some(r) }, BrowserAction::Finish)
}

/// The next state and action of CAPTCHA detection after event `e`.
pub open spec fn captcha_next(c: CaptchaCheck, e: BrowserEvent) -> (CaptchaCheck, BrowserAction) {
    if c.stage == CaptchaStage::Finished {
        (c, BrowserAction::Finish)
    } else {
        match e {
            BrowserEvent::Scan(ScanOutcome::Found) => captcha_done(Ok(true)),
            BrowserEvent::Scan(ScanOutcome::NotFound) => match c.stage {
                CaptchaStage::Frames => captcha_probe(CaptchaStage::Inputs),
                CaptchaStage::Inputs => captcha_probe(CaptchaStage::Robot),
                _ => captcha_done(Ok(false)),
            },
            BrowserEvent::Scan(ScanOutcome::Error(err)) => captcha_done(Err(err)),
            _ => captcha_probe(c.stage),
        }
    }
}

impl CaptchaCheck {
    fn probe(stage: CaptchaStage) -> (r: (CaptchaCheck, BrowserAction))
        ensures
            r == captcha_probe(stage),
    {
        let group = match stage {
            CaptchaStage::Frames => LocatorSet::CaptchaFrames,
            CaptchaStage::Inputs => LocatorSet::CaptchaInputs,
            _ => LocatorSet::RobotIndicators,
        };
        (
            CaptchaCheck { stage, result: None },
            BrowserAction::Probe(ScanGoal::AnyDisplayed, ScanTarget::Group(group)),
        )
    }

    /// CAPTCHA detection and its first action.
    pub fn start() -> (r: (CaptchaCheck, BrowserAction))
        ensures
            r == captcha_probe(CaptchaStage::Frames),
    {
        CaptchaCheck::probe(CaptchaStage::Frames)
    }

    /// The next state and action after event `e`.
    pub fn step(self, e: BrowserEvent) -> (r: (CaptchaCheck, BrowserAction))
        ensures
            r == captcha_next(self, e),
    {
        if self.stage == CaptchaStage::Finished {
            return (self, BrowserAction::Finish);
        }
        match e {
            BrowserEvent::Scan(ScanOutcome::Found) => (
                CaptchaCheck { stage: CaptchaStage::Finished, result: Some(Ok(true)) },
                BrowserAction::Finish,
            ),
            BrowserEvent::Scan(ScanOutcome::NotFound) => match self.stage {
                CaptchaStage::Frames => CaptchaCheck::probe(CaptchaStage::Inputs),
                CaptchaStage::Inputs => CaptchaCheck::probe(CaptchaStage::Robot),
                _ => (
                    CaptchaCheck { stage: CaptchaStage::Finished, result: Some(Ok(false)) },
                    BrowserAction::Finish,
                ),
            },
            BrowserEvent::Scan(ScanOutcome::Error(err)) => (
                CaptchaCheck { stage: CaptchaStage::Finished, result: Some(Err(err)) },
                BrowserAction::Finish,
            ),
            _ => CaptchaCheck::probe(self.stage),
        }
    }
}

/// A CAPTCHA is reported only when a group of indicators had a visible
/// element, and "no CAPTCHA" only once the last group had none.
pub proof fn law_captcha_reported_only_when_seen(c: CaptchaCheck, e: BrowserEvent)
    requires
        c.stage != CaptchaStage::Finished,
    ensures
        captcha_next(c, e).0.result == Some(Ok::<bool, AppError>(true)) ==> e == BrowserEvent::Scan(
            ScanOutcome::Found,
        ),
        captcha_next(c, e).0.result == Some(Ok::<bool, AppError>(false)) ==> c.stage
            == CaptchaStage::Robot && e == BrowserEvent::Scan(ScanOutcome::NotFound),
{
}

/// Where a page wait stands.
#[derive(Debug, Clone, Copy, PartialEq, Eq, Structural)]
pub enum WaitStage {
    /// Noting the deadline.
    Deadline,
    /// Checking the deadline.
    Clock,
    /// Looking for a CAPTCHA.
    Captcha,
    /// Looking for the page's target elements.
    Target,
    /// Looking for the empty-result message (search pages only).
    EmptyState,
    /// Pausing before the next poll.
    Pause,
    Finished,
}

/// Waiting, until a deadline, for a page to show its target elements (or,
/// for a search page, the empty-result message) or a CAPTCHA, polling every
/// half second.
#[derive(Debug, Clone, PartialEq, Eq)]
pub struct PageWait {
    pub kind: PageState,
    pub timeout_ms: u64,
    pub stage: WaitStage,
    pub result: Option<Result<(), AppError>>,
}

impl PageWait {
    /// The wait has no result before it finishes, and looks for the
    /// empty-result message only on a search page.
    pub open spec fn wf(&self) -> bool {
        &&& (self.stage != WaitStage::Finished ==> self.result is None)
        &&& (self.stage == WaitStage::EmptyState ==> self.kind == PageState::SearchResults)
    }
}

/// The elements whose presence means the page is ready.
pub open spec fn wait_target(kind: PageState) -> LocatorSet {
    match kind {
        PageState::SearchResults => LocatorSet::ResultCards,
        PageState::VacancyPage => LocatorSet::VacancyPageReady,
        PageState::Description => LocatorSet::DescriptionReady,
        PageState::ApplyForm => LocatorSet::ApplyForm,
    }
}

/// The action of a wait stage.
pub open spec fn wait_action(w: PageWait) -> BrowserAction {
    match w.stage {
        WaitStage::Deadline => BrowserAction::StartDeadline(w.timeout_ms),
        WaitStage::Clock => BrowserAction::CheckDeadline,
        WaitStage::Captcha => BrowserAction::DetectCaptcha,
        WaitStage::Target => BrowserAction::Probe(
            ScanGoal::AnyPresent,
            ScanTarget::Group(wait_target(w.kind)),
        ),
        WaitStage::EmptyState => BrowserAction::Probe(
            ScanGoal::AnyDisplayed,
            ScanTarget::Group(LocatorSet::SearchEmptyState),
        ),
        WaitStage::Pause => BrowserAction::Sleep(POLL_INTERVAL_MS),
        WaitStage::Finished => BrowserAction::Finish,
    }
}

/// Moving to `stage`.
pub open spec fn wait_at(w: PageWait, stage: WaitStage) -> (PageWait, BrowserAction) {
    let t = PageWait { stage, ..w };
    (t, wait_action(t))
}

/// Finishing the wait with `r`.
pub open spec fn wait_done(w: PageWait, r: Result<(), AppError>) -> (PageWait, BrowserAction) {
    (PageWait { stage: WaitStage::Finished, result: Some(r), ..w }, BrowserAction::Finish)
}

/// The next state and action of a page wait after event `e`: a passed
/// deadline ends it with `Timeout`; a CAPTCHA, the target elements or (on a
/// search page) the empty-result message end it successfully; a failed check
/// ends it with that failure; otherwise it pauses and polls again.
pub open spec fn wait_next(w: PageWait, e: BrowserEvent) -> (PageWait, BrowserAction) {
    match w.stage {
        WaitStage::Deadline => match e {
            BrowserEvent::Done => wait_at(w, WaitStage::Clock),
            _ => wait_at(w, w.stage),
        },
        WaitStage::Clock => match e {
            BrowserEvent::Flag(true) => wait_done(w, Err(AppError::Timeout)),
            BrowserEvent::Flag(false) => wait_at(w, WaitStage::Captcha),
            _ => wait_at(w, w.stage),
        },
        WaitStage::Captcha => match e {
            BrowserEvent::Flag(true) => wait_done(w, Ok(())),
            BrowserEvent::Flag(false) => wait_at(w, WaitStage::Target),
            BrowserEvent::Failed(err) => wait_done(w, Err(err)),
            _ => wait_at(w, w.stage),
        },
        WaitStage::Target => match e {
            BrowserEvent::Scan(ScanOutcome::Found) => wait_done(w, Ok(())),
            BrowserEvent::Scan(ScanOutcome::NotFound) => if w.kind == PageState::SearchResults {
                wait_at(w, WaitStage::EmptyState)
            } else {
                wait_at(w, WaitStage::Pause)
            },
            BrowserEvent::Scan(ScanOutcome::Error(err)) => wait_done(w, Err(err)),
            _ => wait_at(w, w.stage),
        },
        WaitStage::EmptyState => match e {
            BrowserEvent::Scan(ScanOutcome::Found) => wait_done(w, Ok(())),
            BrowserEvent::Scan(ScanOutcome::NotFound) => wait_at(w, WaitStage::Pause),
            BrowserEvent::Scan(ScanOutcome::Error(err)) => wait_done(w, Err(err)),
            _ => wait_at(w, w.stage),
        },
        WaitStage::Pause => match e {
            BrowserEvent::Done => wait_at(w, WaitStage::Clock),
            _ => wait_at(w, w.stage),
        },
        WaitStage::Finished => (w, BrowserAction::Finish),
    }
}

impl PageWait {
    fn action(&self) -> (r: BrowserAction)
        ensures
            r == wait_action(*self),
    {
        match self.stage {
            WaitStage::Deadline => BrowserAction::StartDeadline(self.timeout_ms),
            WaitStage::Clock => BrowserAction::CheckDeadline,
            WaitStage::Captcha => BrowserAction::DetectCaptcha,
            WaitStage::Target => {
                let set = match self.kind {
                    PageState::SearchResults => LocatorSet::ResultCards,
                    PageState::VacancyPage => LocatorSet::VacancyPageReady,
                    PageState::Description => LocatorSet::DescriptionReady,
                    PageState::ApplyForm => LocatorSet::ApplyForm,
                };
                BrowserAction::Probe(ScanGoal::AnyPresent, ScanTarget::Group(set))
            },
            WaitStage::EmptyState => BrowserAction::Probe(
                ScanGoal::AnyDisplayed,
                ScanTarget::Group(LocatorSet::SearchEmptyState),
            ),
            WaitStage::Pause => BrowserAction::Sleep(POLL_INTERVAL_MS),
            WaitStage::Finished => BrowserAction::Finish,
        }
    }

    fn at(self, stage: WaitStage) -> (r: (PageWait, BrowserAction))
        ensures
            r == wait_at(self, stage),
    {
        let t = PageWait { stage, ..self };
        let a = t.action();
        (t, a)
    }

    fn done(self, r: Result<(), AppError>) -> (res: (PageWait, BrowserAction))
        ensures
            res == wait_done(self, r),
    {
        (PageWait { stage: WaitStage::Finished, result: Some(r), ..self }, BrowserAction::Finish)
    }

    /// A wait for `kind` that gives up after `timeout_ms` milliseconds, and its
    /// first action.
    pub fn start(kind: PageState, timeout_ms: u64) -> (r: (PageWait, BrowserAction))
        ensures
            r.0.wf(),
            r.0 == (PageWait { kind, timeout_ms, stage: WaitStage::Deadline, result: None }),
            r.1 == BrowserAction::StartDeadline(timeout_ms),
    {
        (
            PageWait { kind, timeout_ms, stage: WaitStage::Deadline, result: None },
            BrowserAction::StartDeadline(timeout_ms),
        )
    }

    /// The next state and action after event `e`.
    pub fn step(self, e: BrowserEvent) -> (r: (PageWait, BrowserAction))
        requires
            self.wf(),
        ensures
            r == wait_next(self, e),
            r.0.wf(),
    {
        let stage = self.stage;
        match stage {
            WaitStage::Deadline => match e {
                BrowserEvent::Done => self.at(WaitStage::Clock),
                _ => self.at(stage),
            },
            WaitStage::Clock => match e {
                BrowserEvent::Flag(true) => self.done(Err(AppError::Timeout)),
                BrowserEvent::Flag(false) => self.at(WaitStage::Captcha),
                _ => self.at(stage),
            },
            WaitStage::Captcha => match e {
                BrowserEvent::Flag(true) => self.done(Ok(())),
                BrowserEvent::Flag(false) => self.at(WaitStage::Target),
                BrowserEvent::Failed(err) => self.done(Err(err)),
                _ => self.at(stage),
            },
            WaitStage::Target => match e {
                BrowserEvent::Scan(ScanOutcome::Found) => self.done(Ok(())),
                BrowserEvent::Scan(ScanOutcome::NotFound) => {
                    if self.kind == PageState::SearchResults {
                        self.at(WaitStage::EmptyState)
                    } else {
                        self.at(WaitStage::Pause)
                    }
                },
                BrowserEvent::Scan(ScanOutcome::Error(err)) => self.done(Err(err)),
                _ => self.at(stage),
            },
            WaitStage::EmptyState => match e {
                BrowserEvent::Scan(ScanOutcome::Found) => self.done(Ok(())),
                BrowserEvent::Scan(ScanOutcome::NotFound) => self.at(WaitStage::Pause),
                BrowserEvent::Scan(ScanOutcome::Error(err)) => self.done(Err(err)),
                _ => self.at(stage),
            },
            WaitStage::Pause => match e {
                BrowserEvent::Done => self.at(WaitStage::Clock),
                _ => self.at(stage),
            },
            WaitStage::Finished => (self, BrowserAction::Finish),
        }
    }
}

/// A page wait times out only when the deadline check says the deadline has
/// passed, and it succeeds only when a CAPTCHA, the target elements or the
/// empty-result message were seen; the empty-result message counts only on a
/// search page.
pub proof fn law_page_wait_outcomes(w: PageWait, e: BrowserEvent)
    requires
        w.wf(),
        w.stage != WaitStage::Finished,
    ensures
        wait_next(w, e).0.result == Some(Err::<(), AppError>(AppError::Timeout)) ==> (w.stage
            == WaitStage::Clock && e == BrowserEvent::Flag(true)) || (e == BrowserEvent::Failed(
            AppError::Timeout,
        )) || (e == BrowserEvent::Scan(ScanOutcome::Error(AppError::Timeout))),
        wait_next(w, e).0.result == Some(Ok::<(), AppError>(())) ==> (w.stage
            == WaitStage::Captcha && e == BrowserEvent::Flag(true)) || (w.stage
            == WaitStage::Target && e == BrowserEvent::Scan(ScanOutcome::Found)) || (w.stage
            == WaitStage::EmptyState && w.kind == PageState::SearchResults && e
            == BrowserEvent::Scan(ScanOutcome::Found)),
{
}

/// A page wait succeeds as soon as it sees what it waits for: a CAPTCHA, the
/// page's target elements, or (on a search page) the empty-result message
/// each end it at once with `Ok`; a passed deadline ends it with `Timeout`.
pub proof fn law_page_wait_succeeds_when_seen(w: PageWait)
    requires
        w.wf(),
    ensures
        w.stage == WaitStage::Captcha ==> wait_next(w, BrowserEvent::Flag(true)) == (
            PageWait { stage: WaitStage::Finished, result: Some(Ok(())), ..w },
            BrowserAction::Finish,
        ),
        w.stage == WaitStage::Target ==> wait_next(w, BrowserEvent::Scan(ScanOutcome::Found)) == (
            PageWait { stage: WaitStage::Finished, result: Some(Ok(())), ..w },
            BrowserAction::Finish,
        ),
        w.stage == WaitStage::EmptyState ==> wait_next(w, BrowserEvent::Scan(ScanOutcome::Found))
            == (
            PageWait { stage: WaitStage::Finished, result: Some(Ok(())), ..w },
            BrowserAction::Finish,
        ),
        w.stage == WaitStage::Clock ==> wait_next(w, BrowserEvent::Flag(true)) == (
            PageWait { stage: WaitStage::Finished, result: Some(Err(AppError::Timeout)), ..w },
            BrowserAction::Finish,
        ),
{
}

/// CAPTCHA detection looks, in order, for visible CAPTCHA frames, visible
/// CAPTCHA inputs and visible "not a robot" texts: a group without a visible
/// element moves on to the next group, and "no CAPTCHA" comes only after the
/// last group.
pub proof fn law_captcha_checks_groups_in_order()
    ensures
        ({
            let c0 = CaptchaCheck { stage: CaptchaStage::Frames, result: None };
            let nf = BrowserEvent::Scan(ScanOutcome::NotFound);
            let (c1, a1) = captcha_next(c0, nf);
            let (c2, a2) = captcha_next(c1, nf);
            let (c3, a3) = captcha_next(c2, nf);
            &&& a1 == BrowserAction::Probe(
                ScanGoal::AnyDisplayed,
                ScanTarget::Group(LocatorSet::CaptchaInputs),
            )
            &&& a2 == BrowserAction::Probe(
                ScanGoal::AnyDisplayed,
                ScanTarget::Group(LocatorSet::RobotIndicators),
            )
            &&& c1.result is None && c2.result is None
            &&& a3 == BrowserAction::Finish
            &&& c3.result == Some(Ok::<bool, AppError>(false))
        }),
        forall|s: CaptchaStage|
            s != CaptchaStage::Finished ==> #[trigger] captcha_next(
                CaptchaCheck { stage: s, result: None },
                BrowserEvent::Scan(ScanOutcome::Found),
            ).0.result == Some(Ok::<bool, AppError>(true)),
{
}

/// Until it sees what it waits for, a page wait keeps polling: deadline
/// check, CAPTCHA check, the page's target elements (result cards, respond
/// controls, description or response form), on a search page the
/// empty-result message, then a half-second pause and the deadline check
/// again.
pub proof fn law_page_wait_polls(w: PageWait)
    requires
        w.wf(),
    ensures
        w.stage == WaitStage::Deadline ==> wait_next(w, BrowserEvent::Done) == (
            PageWait { stage: WaitStage::Clock, ..w },
            BrowserAction::CheckDeadline,
        ),
        w.stage == WaitStage::Clock ==> wait_next(w, BrowserEvent::Flag(false)) == (
            PageWait { stage: WaitStage::Captcha, ..w },
            BrowserAction::DetectCaptcha,
        ),
        w.stage == WaitStage::Captcha ==> wait_next(w, BrowserEvent::Flag(false)).0.stage
            == WaitStage::Target && wait_next(w, BrowserEvent::Flag(false)).1 == BrowserAction::Probe(
            ScanGoal::AnyPresent,
            ScanTarget::Group(
                match w.kind {
                    PageState::SearchResults => LocatorSet::ResultCards,
                    PageState::VacancyPage => LocatorSet::VacancyPageReady,
                    PageState::Description => LocatorSet::DescriptionReady,
                    PageState::ApplyForm => LocatorSet::ApplyForm,
                },
            ),
        ),
        w.stage == WaitStage::Target && w.kind == PageState::SearchResults ==> wait_next(
            w,
            BrowserEvent::Scan(ScanOutcome::NotFound),
        ) == (
            PageWait { stage: WaitStage::EmptyState, ..w },
            BrowserAction::Probe(
                ScanGoal::AnyDisplayed,
                ScanTarget::Group(LocatorSet::SearchEmptyState),
            ),
        ),
        w.stage == WaitStage::Target && w.kind != PageState::SearchResults ==> wait_next(
            w,
            BrowserEvent::Scan(ScanOutcome::NotFound),
        ) == (PageWait { stage: WaitStage::Pause, ..w }, BrowserAction::Sleep(POLL_INTERVAL_MS)),
        w.stage == WaitStage::EmptyState ==> wait_next(w, BrowserEvent::Scan(ScanOutcome::NotFound))
            == (PageWait { stage: WaitStage::Pause, ..w }, BrowserAction::Sleep(POLL_INTERVAL_MS)),
        w.stage == WaitStage::Pause ==> wait_next(w, BrowserEvent::Done) == (
            PageWait { stage: WaitStage::Clock, ..w },
            BrowserAction::CheckDeadline,
        ),
{
}

} // verus!
