//! The apply flow: open the vacancy in a visible browser, press its respond
//! control, prepare the response form, and leave it for the user to review and
//! submit by hand.
use vstd::prelude::*;

use crate::errors::AppError;
use crate::services::actions::{
    BrowserAction, BrowserEvent, Page, PageState, ScanGoal, ScanOutcome, ScanTarget, Shot,
    HUMAN_DELAY_MS,
};
use crate::services::browser::{is_manual_browser_close_error, is_manual_close};
use crate::services::selectors::LocatorSet;

verus! {

/// Where the apply flow stands.
#[derive(Debug, Clone, Copy, PartialEq, Eq, Structural)]
pub enum ApplyStage {
    CheckDriver,
    CreateDriver,
    Open,
    WaitPage,
    /// The screenshot after the vacancy page did not show its respond controls in time.
    PageShot,
    Captcha,
    CaptchaShot,
    Pause,
    ShotBeforeClick,
    ClickApply,
    /// The screenshot after no respond control could be clicked.
    ClickShot,
    WaitForm,
    /// The screenshot of the response form.
    ModalShot,
    /// The screenshot after the form did not appear in time.
    FormShot,
    FormCaptcha,
    FormCaptchaShot,
    FindResume,
    ClickResume,
    FindLetter,
    ClearLetter,
    TypeLetter,
    ShotReady,
    /// Waiting for the user to close the browser.
    AwaitClose,
    /// The screenshot after the flow failed.
    ErrorShot,
    Finished,
}

/// The apply flow's state.
#[derive(Debug, Clone, PartialEq, Eq)]
pub struct ApplyFlow {
    pub stage: ApplyStage,
    /// A resume id was requested.
    pub has_resume: bool,
    /// The error the flow ends with, once there is one.
    pub error: Option<AppError>,
}

/// The action of each stage.
pub open spec fn apply_action(s: ApplyFlow) -> BrowserAction {
    match s.stage {
        ApplyStage::CheckDriver => BrowserAction::CheckDriver,
        ApplyStage::CreateDriver => BrowserAction::CreateDriver { headless: false },
        ApplyStage::Open => BrowserAction::Goto(Page::Vacancy),
        ApplyStage::WaitPage => BrowserAction::WaitFor(PageState::VacancyPage),
        ApplyStage::PageShot => BrowserAction::Screenshot(Shot::ApplyError),
        ApplyStage::Captcha => BrowserAction::DetectCaptcha,
        ApplyStage::CaptchaShot => BrowserAction::Screenshot(Shot::Captcha),
        ApplyStage::Pause => BrowserAction::Sleep(HUMAN_DELAY_MS),
        ApplyStage::ShotBeforeClick => BrowserAction::Screenshot(Shot::ApplyBeforeClick),
        ApplyStage::ClickApply => BrowserAction::Probe(
            ScanGoal::ClickFirstInteractable,
            ScanTarget::Group(LocatorSet::ApplyButtons),
        ),
        ApplyStage::ClickShot => BrowserAction::Screenshot(Shot::ApplyError),
        ApplyStage::WaitForm => BrowserAction::WaitFor(PageState::ApplyForm),
        ApplyStage::ModalShot => BrowserAction::Screenshot(Shot::ApplyModal),
        ApplyStage::FormShot => BrowserAction::Screenshot(Shot::ApplyError),
        ApplyStage::FormCaptcha => BrowserAction::DetectCaptcha,
        ApplyStage::FormCaptchaShot => BrowserAction::Screenshot(Shot::Captcha),
        ApplyStage::FindResume => BrowserAction::Probe(
            ScanGoal::FirstInteractable,
            ScanTarget::ResumeControls,
        ),
        ApplyStage::ClickResume => BrowserAction::ClickMatched,
        ApplyStage::FindLetter => BrowserAction::Probe(
            ScanGoal::FirstInteractable,
            ScanTarget::Group(LocatorSet::CoverLetterInput),
        ),
        ApplyStage::ClearLetter => BrowserAction::ClearMatched,
        ApplyStage::TypeLetter => BrowserAction::TypeCoverLetter,
        ApplyStage::ShotReady => BrowserAction::Screenshot(Shot::ApplyReadyForReview),
        ApplyStage::AwaitClose => BrowserAction::WaitForManualClose,
        ApplyStage::ErrorShot => BrowserAction::Screenshot(Shot::ApplyError),
        ApplyStage::Finished => BrowserAction::Finish,
    }
}

/// Moving to `stage`.
pub open spec fn apply_at(s: ApplyFlow, stage: ApplyStage) -> (ApplyFlow, BrowserAction) {
    let t = ApplyFlow { stage, ..s };
    (t, apply_action(t))
}

/// The flow failing with `err`: a failure caused by the user closing the
/// browser counts as the end of the review; any other is recorded after an
/// error screenshot.
pub open spec fn apply_fail(s: ApplyFlow, err: AppError) -> (ApplyFlow, BrowserAction) {
    if is_manual_close(err) {
        apply_at(ApplyFlow { error: None, ..s }, ApplyStage::Finished)
    } else {
        apply_at(ApplyFlow { error: Some(err), ..s }, ApplyStage::ErrorShot)
    }
}

/// The next state and action of the apply flow after event `e`. An event that
/// the current action cannot produce leaves the flow as it is. Screenshots,
/// the resume selection and the cover letter are best effort: their failures
/// do not stop the flow.
pub open spec fn apply_next(s: ApplyFlow, e: BrowserEvent) -> (ApplyFlow, BrowserAction) {
    let same = apply_at(s, s.stage);
    let shot_done = e == BrowserEvent::Done || e is Failed;
    match s.stage {
        ApplyStage::CheckDriver => match e {
            BrowserEvent::Done => apply_at(s, ApplyStage::CreateDriver),
            BrowserEvent::Failed(err) => apply_at(
                ApplyFlow { error: Some(err), ..s },
                ApplyStage::Finished,
            ),
            _ => same,
        },
        ApplyStage::CreateDriver => match e {
            BrowserEvent::Done => apply_at(s, ApplyStage::Open),
            BrowserEvent::Failed(err) => apply_at(
                ApplyFlow { error: Some(err), ..s },
                ApplyStage::Finished,
            ),
            _ => same,
        },
        ApplyStage::Open => match e {
            BrowserEvent::Done => apply_at(s, ApplyStage::WaitPage),
            BrowserEvent::Failed(err) => apply_fail(s, err),
            _ => same,
        },
        ApplyStage::WaitPage => match e {
            BrowserEvent::Done => apply_at(s, ApplyStage::Captcha),
            BrowserEvent::Failed(err) => if err == AppError::Timeout {
                apply_at(s, ApplyStage::PageShot)
            } else {
                apply_fail(s, err)
            },
            _ => same,
        },
        ApplyStage::PageShot => if shot_done {
            apply_at(s, ApplyStage::Captcha)
        } else {
            same
        },
        ApplyStage::Captcha => match e {
            BrowserEvent::Flag(true) => apply_at(s, ApplyStage::CaptchaShot),
            BrowserEvent::Flag(false) => apply_at(s, ApplyStage::Pause),
            BrowserEvent::Failed(err) => apply_fail(s, err),
            _ => same,
        },
        ApplyStage::CaptchaShot => if shot_done {
            apply_fail(s, AppError::CaptchaDetected)
        } else {
            same
        },
        ApplyStage::Pause => match e {
            BrowserEvent::Done => apply_at(s, ApplyStage::ShotBeforeClick),
            _ => same,
        },
        ApplyStage::ShotBeforeClick => if shot_done {
            apply_at(s, ApplyStage::ClickApply)
        } else {
            same
        },
        ApplyStage::ClickApply => match e {
            BrowserEvent::Scan(ScanOutcome::Clicked) => apply_at(s, ApplyStage::WaitForm),
            BrowserEvent::Scan(_) => apply_at(s, ApplyStage::ClickShot),
            _ => same,
        },
        ApplyStage::ClickShot => if shot_done {
            apply_at(s, ApplyStage::WaitForm)
        } else {
            same
        },
        ApplyStage::WaitForm => match e {
            BrowserEvent::Done => apply_at(s, ApplyStage::ModalShot),
            BrowserEvent::Failed(err) => if err == AppError::Timeout {
                apply_at(s, ApplyStage::FormShot)
            } else {
                apply_fail(s, err)
            },
            _ => same,
        },
        ApplyStage::ModalShot | ApplyStage::FormShot => if shot_done {
            apply_at(s, ApplyStage::FormCaptcha)
        } else {
            same
        },
        ApplyStage::FormCaptcha => match e {
            BrowserEvent::Flag(true) => apply_at(s, ApplyStage::FormCaptchaShot),
            BrowserEvent::Flag(false) => if s.has_resume {
                apply_at(s, ApplyStage::FindResume)
            } else {
                apply_at(s, ApplyStage::FindLetter)
            },
            BrowserEvent::Failed(err) => apply_fail(s, err),
            _ => same,
        },
        ApplyStage::FormCaptchaShot => if shot_done {
            apply_fail(s, AppError::CaptchaDetected)
        } else {
            same
        },
        ApplyStage::FindResume => match e {
            BrowserEvent::Scan(ScanOutcome::Element { .. }) => apply_at(s, ApplyStage::ClickResume),
            BrowserEvent::Scan(_) => apply_at(s, ApplyStage::FindLetter),
            _ => same,
        },
        ApplyStage::ClickResume => if shot_done {
            apply_at(s, ApplyStage::FindLetter)
        } else {
            same
        },
        ApplyStage::FindLetter => match e {
            BrowserEvent::Scan(ScanOutcome::Element { .. }) => apply_at(s, ApplyStage::ClearLetter),
            BrowserEvent::Scan(_) => apply_at(s, ApplyStage::ShotReady),
            _ => same,
        },
        ApplyStage::ClearLetter => if shot_done {
            apply_at(s, ApplyStage::TypeLetter)
        } else {
            same
        },
        ApplyStage::TypeLetter => if shot_done {
            apply_at(s, ApplyStage::ShotReady)
        } else {
            same
        },
        ApplyStage::ShotReady => if shot_done {
            apply_at(s, ApplyStage::AwaitClose)
        } else {
            same
        },
        ApplyStage::AwaitClose => match e {
            BrowserEvent::Done => apply_at(s, ApplyStage::Finished),
            _ => same,
        },
        ApplyStage::ErrorShot => if shot_done {
            apply_at(s, ApplyStage::Finished)
        } else {
            same
        },
        ApplyStage::Finished => (s, BrowserAction::Finish),
    }
}

impl ApplyFlow {
    fn action(&self) -> (r: BrowserAction)
        ensures
            r == apply_action(*self),
    {
        match self.stage {
            ApplyStage::CheckDriver => BrowserAction::CheckDriver,
            ApplyStage::CreateDriver => BrowserAction::CreateDriver { headless: false },
            ApplyStage::Open => BrowserAction::Goto(Page::Vacancy),
            ApplyStage::WaitPage => BrowserAction::WaitFor(PageState::VacancyPage),
            ApplyStage::PageShot => BrowserAction::Screenshot(Shot::ApplyError),
            ApplyStage::Captcha => BrowserAction::DetectCaptcha,
            ApplyStage::CaptchaShot => BrowserAction::Screenshot(Shot::Captcha),
            ApplyStage::Pause => BrowserAction::Sleep(HUMAN_DELAY_MS),
            ApplyStage::ShotBeforeClick => BrowserAction::Screenshot(Shot::ApplyBeforeClick),
            ApplyStage::ClickApply => BrowserAction::Probe(
                ScanGoal::ClickFirstInteractable,
                ScanTarget::Group(LocatorSet::ApplyButtons),
            ),
            ApplyStage::ClickShot => BrowserAction::Screenshot(Shot::ApplyError),
            ApplyStage::WaitForm => BrowserAction::WaitFor(PageState::ApplyForm),
            ApplyStage::ModalShot => BrowserAction::Screenshot(Shot::ApplyModal),
            ApplyStage::FormShot => BrowserAction::Screenshot(Shot::ApplyError),
            ApplyStage::FormCaptcha => BrowserAction::DetectCaptcha,
            ApplyStage::FormCaptchaShot => BrowserAction::Screenshot(Shot::Captcha),
            ApplyStage::FindResume => BrowserAction::Probe(
                ScanGoal::FirstInteractable,
                ScanTarget::ResumeControls,
            ),
            ApplyStage::ClickResume => BrowserAction::ClickMatched,
            ApplyStage::FindLetter => BrowserAction::Probe(
                ScanGoal::FirstInteractable,
                ScanTarget::Group(LocatorSet::CoverLetterInput),
            ),
            ApplyStage::ClearLetter => BrowserAction::ClearMatched,
            ApplyStage::TypeLetter => BrowserAction::TypeCoverLetter,
            ApplyStage::ShotReady => BrowserAction::Screenshot(Shot::ApplyReadyForReview),
            ApplyStage::AwaitClose => BrowserAction::WaitForManualClose,
            ApplyStage::ErrorShot => BrowserAction::Screenshot(Shot::ApplyError),
            ApplyStage::Finished => BrowserAction::Finish,
        }
    }

    fn at(self, stage: ApplyStage) -> (r: (ApplyFlow, BrowserAction))
        ensures
            r == apply_at(self, stage),
    {
        let t = ApplyFlow { stage, ..self };
        let a = t.action();
        (t, a)
    }

    fn fail(self, err: AppError) -> (r: (ApplyFlow, BrowserAction))
        ensures
            r == apply_fail(self, err),
    {
        if is_manual_browser_close_error(&err) {
            ApplyFlow { error: None, ..self }.at(ApplyStage::Finished)
        } else {
            ApplyFlow { error: Some(err), ..self }.at(ApplyStage::ErrorShot)
        }
    }

    /// An apply flow, for a request with or without a resume id, and its
    /// first action: checking that ChromeDriver is available.
    pub fn start(has_resume: bool) -> (r: (ApplyFlow, BrowserAction))
        ensures
            r == apply_at(
                ApplyFlow { stage: ApplyStage::CheckDriver, has_resume, error: None },
                ApplyStage::CheckDriver,
            ),
    {
        ApplyFlow { stage: ApplyStage::CheckDriver, has_resume, error: None }.at(
            ApplyStage::CheckDriver,
        )
    }

    /// The next state and action after event `e`.
    pub fn step(self, e: BrowserEvent) -> (r: (ApplyFlow, BrowserAction))
        ensures
            r == apply_next(self, e),
    {
        let stage = self.stage;
        let shot_done = match &e {
            BrowserEvent::Done | BrowserEvent::Failed(_) => true,
            _ => false,
        };
        match stage {
            ApplyStage::CheckDriver | ApplyStage::CreateDriver => match e {
                BrowserEvent::Done => {
                    if stage == ApplyStage::CheckDriver {
                        self.at(ApplyStage::CreateDriver)
                    } else {
                        self.at(ApplyStage::Open)
                    }
                },
                BrowserEvent::Failed(err) => ApplyFlow { error: Some(err), ..self }.at(
                    ApplyStage::Finished,
                ),
                _ => self.at(stage),
            },
            ApplyStage::Open => match e {
                BrowserEvent::Done => self.at(ApplyStage::WaitPage),
                BrowserEvent::Failed(err) => self.fail(err),
                _ => self.at(stage),
            },
            ApplyStage::WaitPage | ApplyStage::WaitForm => match e {
                BrowserEvent::Done => {
                    if stage == ApplyStage::WaitPage {
                        self.at(ApplyStage::Captcha)
                    } else {
                        self.at(ApplyStage::ModalShot)
                    }
                },
                BrowserEvent::Failed(err) => {
                    let timed_out = match &err {
                        AppError::Timeout => true,
                        _ => false,
                    };
                    if timed_out {
                        if stage == ApplyStage::WaitPage {
                            self.at(ApplyStage::PageShot)
                        } else {
                            self.at(ApplyStage::FormShot)
                        }
                    } else {
                        self.fail(err)
                    }
                },
                _ => self.at(stage),
            },
            ApplyStage::Captcha | ApplyStage::FormCaptcha => match e {
                BrowserEvent::Flag(true) => {
                    if stage == ApplyStage::Captcha {
                        self.at(ApplyStage::CaptchaShot)
                    } else {
                        self.at(ApplyStage::FormCaptchaShot)
                    }
                },
                BrowserEvent::Flag(false) => {
                    if stage == ApplyStage::Captcha {
                        self.at(ApplyStage::Pause)
                    } else if self.has_resume {
                        self.at(ApplyStage::FindResume)
                    } else {
                        self.at(ApplyStage::FindLetter)
                    }
                },
                BrowserEvent::Failed(err) => self.fail(err),
                _ => self.at(stage),
            },
            ApplyStage::CaptchaShot | ApplyStage::FormCaptchaShot => {
                if shot_done {
                    self.fail(AppError::CaptchaDetected)
                } else {
                    self.at(stage)
                }
            },
            ApplyStage::Pause => match e {
                BrowserEvent::Done => self.at(ApplyStage::ShotBeforeClick),
                _ => self.at(stage),
            },
            ApplyStage::ClickApply => match e {
                BrowserEvent::Scan(ScanOutcome::Clicked) => self.at(ApplyStage::WaitForm),
                BrowserEvent::Scan(_) => self.at(ApplyStage::ClickShot),
                _ => self.at(stage),
            },
            ApplyStage::FindResume | ApplyStage::FindLetter => match e {
                BrowserEvent::Scan(ScanOutcome::Element { .. }) => {
                    if stage == ApplyStage::FindResume {
                        self.at(ApplyStage::ClickResume)
                    } else {
                        self.at(ApplyStage::ClearLetter)
                    }
                },
                BrowserEvent::Scan(_) => {
                    if stage == ApplyStage::FindResume {
                        self.at(ApplyStage::FindLetter)
                    } else {
                        self.at(ApplyStage::ShotReady)
                    }
                },
                _ => self.at(stage),
            },
            ApplyStage::AwaitClose => match e {
                BrowserEvent::Done => self.at(ApplyStage::Finished),
                _ => self.at(stage),
            },
            ApplyStage::Finished => (self, BrowserAction::Finish),
            _ => {
                if shot_done {
                    let next = match stage {
                        ApplyStage::PageShot => ApplyStage::Captcha,
                        ApplyStage::ShotBeforeClick => ApplyStage::ClickApply,
                        ApplyStage::ClickShot => ApplyStage::WaitForm,
                        ApplyStage::ModalShot | ApplyStage::FormShot => ApplyStage::FormCaptcha,
                        ApplyStage::ClickResume => ApplyStage::FindLetter,
                        ApplyStage::ClearLetter => ApplyStage::TypeLetter,
                        ApplyStage::TypeLetter => ApplyStage::ShotReady,
                        ApplyStage::ShotReady => ApplyStage::AwaitClose,
                        _ => ApplyStage::Finished,
                    };
                    self.at(next)
                } else {
                    self.at(stage)
                }
            },
        }
    }

    /// The result of the apply flow.
    pub fn into_result(self) -> (r: Result<(), AppError>)
        ensures
            self.error is Some ==> r == Err::<(), AppError>(self.error->0),
            self.error is None ==> r is Ok,
    {
        match self.error {
            Some(err) => Err(err),
            None => Ok(()),
        }
    }
}

/// A CAPTCHA on the vacancy page or in the response form ends the flow
/// without retrying: a CAPTCHA screenshot, an error screenshot, and the flow
/// fails with `CaptchaDetected` (answered with status 503).
pub proof fn law_apply_captcha_stops(
    s: ApplyFlow,
    captcha_shot: BrowserEvent,
    error_shot: BrowserEvent,
)
    requires
        s.stage == ApplyStage::Captcha || s.stage == ApplyStage::FormCaptcha,
        captcha_shot == BrowserEvent::Done || captcha_shot is Failed,
        error_shot == BrowserEvent::Done || error_shot is Failed,
    ensures
        ({
            let (s1, a1) = apply_next(s, BrowserEvent::Flag(true));
            let (s2, a2) = apply_next(s1, captcha_shot);
            let (s3, a3) = apply_next(s2, error_shot);
            &&& a1 == BrowserAction::Screenshot(Shot::Captcha)
            &&& a2 == BrowserAction::Screenshot(Shot::ApplyError)
            &&& a3 == BrowserAction::Finish
            &&& s3.error == Some(AppError::CaptchaDetected)
        }),
{
}

/// The flow never submits the response: once the cover letter is typed it
/// only takes a screenshot and waits for the user to close the browser, and
/// succeeds when the browser is closed.
pub proof fn law_apply_leaves_submission_to_user(
    s: ApplyFlow,
    typed: BrowserEvent,
    shot: BrowserEvent,
)
    requires
        s.stage == ApplyStage::TypeLetter,
        s.error is None,
        typed == BrowserEvent::Done || typed is Failed,
        shot == BrowserEvent::Done || shot is Failed,
    ensures
        ({
            let (s1, a1) = apply_next(s, typed);
            let (s2, a2) = apply_next(s1, shot);
            let (s3, a3) = apply_next(s2, BrowserEvent::Done);
            &&& a1 == BrowserAction::Screenshot(Shot::ApplyReadyForReview)
            &&& a2 == BrowserAction::WaitForManualClose
            &&& a3 == BrowserAction::Finish
            &&& s3.error is None
        }),
{
}

/// The flow succeeds only when the user has closed the browser: either after
/// waiting for it to be closed, or because a browser failure says it was.
pub proof fn law_apply_success_needs_close(s: ApplyFlow, e: BrowserEvent)
    requires
        s.stage != ApplyStage::Finished,
        s.stage != ApplyStage::ErrorShot,
        s.error is None,
        apply_next(s, e).0.stage == ApplyStage::Finished,
        apply_next(s, e).0.error is None,
    ensures
        s.stage == ApplyStage::AwaitClose || (e is Failed && is_manual_close(e->Failed_0)),
{
}

/// The respond control is clicked only after the human-like pause: the flow
/// reaches the click after a screenshot that follows the pause.
pub proof fn law_apply_pauses_before_click(s: ApplyFlow, e: BrowserEvent)
    ensures
        ({
            let t = apply_next(s, e).0;
            &&& t.stage == ApplyStage::ClickApply && s.stage != ApplyStage::ClickApply ==> s.stage
                == ApplyStage::ShotBeforeClick
            &&& t.stage == ApplyStage::ShotBeforeClick && s.stage != ApplyStage::ShotBeforeClick
                ==> s.stage == ApplyStage::Pause && e == BrowserEvent::Done
            &&& apply_action(ApplyFlow { stage: ApplyStage::Pause, ..s }) == BrowserAction::Sleep(
                HUMAN_DELAY_MS,
            )
        }),
{
}

/// The flow clicks nothing but the vacancy's respond control and the
/// requested resume: every clicking scan runs over the respond controls, and
/// a click on a found element happens only at the resume stage.
pub proof fn law_apply_clicks_only_respond_and_resume(s: ApplyFlow, e: BrowserEvent)
    ensures
        ({
            let (t, a) = apply_next(s, e);
            &&& (a matches BrowserAction::Probe(ScanGoal::ClickFirstInteractable, _)) ==> a
                == BrowserAction::Probe(
                ScanGoal::ClickFirstInteractable,
                ScanTarget::Group(LocatorSet::ApplyButtons),
            )
            &&& a == BrowserAction::ClickMatched ==> t.stage == ApplyStage::ClickResume
        }),
{
}

/// The state of an apply flow after it has answered each event of `events`
/// in turn.
pub open spec fn apply_run(s: ApplyFlow, events: Seq<BrowserEvent>) -> ApplyFlow
    decreases events.len(),
{
    if events.len() == 0 {
        s
    } else {
        apply_run(apply_next(s, events[0]).0, events.drop_first())
    }
}

/// The number of times a run enters `stage`.
pub open spec fn stage_entries(s: ApplyFlow, events: Seq<BrowserEvent>, stage: ApplyStage) -> nat
    decreases events.len(),
{
    if events.len() == 0 {
        0
    } else {
        let t = apply_next(s, events[0]).0;
        (if t.stage == stage && s.stage != stage {
            1nat
        } else {
            0nat
        }) + stage_entries(t, events.drop_first(), stage)
    }
}

/// Whether, along a run, the user closed the browser: the close wait ended,
/// or a browser failure said the window was gone.
pub open spec fn closed_by_user(s: ApplyFlow, events: Seq<BrowserEvent>) -> bool
    decreases events.len(),
{
    if events.len() == 0 {
        false
    } else {
        let e = events[0];
        ||| s.stage == ApplyStage::AwaitClose && e == BrowserEvent::Done
        ||| e is Failed && is_manual_close(e->Failed_0)
        ||| closed_by_user(apply_next(s, e).0, events.drop_first())
    }
}

/// The order in which the flow passes its stages.
pub open spec fn apply_rank(stage: ApplyStage) -> nat {
    match stage {
        ApplyStage::CheckDriver => 0,
        ApplyStage::CreateDriver => 1,
        ApplyStage::Open => 2,
        ApplyStage::WaitPage => 3,
        ApplyStage::PageShot => 4,
        ApplyStage::Captcha => 5,
        ApplyStage::CaptchaShot => 6,
        ApplyStage::Pause => 7,
        ApplyStage::ShotBeforeClick => 8,
        ApplyStage::ClickApply => 9,
        ApplyStage::ClickShot => 10,
        ApplyStage::WaitForm => 11,
        ApplyStage::ModalShot => 12,
        ApplyStage::FormShot => 12,
        ApplyStage::FormCaptcha => 13,
        ApplyStage::FormCaptchaShot => 14,
        ApplyStage::FindResume => 15,
        ApplyStage::ClickResume => 16,
        ApplyStage::FindLetter => 17,
        ApplyStage::ClearLetter => 18,
        ApplyStage::TypeLetter => 19,
        ApplyStage::ShotReady => 20,
        ApplyStage::AwaitClose => 21,
        ApplyStage::ErrorShot => 22,
        ApplyStage::Finished => 23,
    }
}

/// The flow carries an error exactly at the error screenshot and possibly
/// once finished.
pub open spec fn apply_error_consistent(s: ApplyFlow) -> bool {
    &&& s.stage == ApplyStage::ErrorShot ==> s.error is Some
    &&& s.stage != ApplyStage::ErrorShot && s.stage != ApplyStage::Finished ==> s.error is None
}

proof fn lemma_apply_step(s: ApplyFlow, e: BrowserEvent)
    ensures
        apply_rank(apply_next(s, e).0.stage) >= apply_rank(s.stage),
        apply_rank(apply_next(s, e).0.stage) == apply_rank(s.stage) ==> apply_next(s, e).0.stage
            == s.stage,
        apply_error_consistent(s) ==> apply_error_consistent(apply_next(s, e).0),
        s.stage == ApplyStage::Finished ==> apply_next(s, e).0 == s,
{
}

proof fn lemma_stage_entries(s: ApplyFlow, events: Seq<BrowserEvent>, x: ApplyStage)
    requires
        x == ApplyStage::ClickApply || x == ApplyStage::ClickResume,
    ensures
        stage_entries(s, events, x) <= 1,
        (s.stage == x || apply_rank(s.stage) > apply_rank(x)) ==> stage_entries(s, events, x) == 0,
    decreases events.len(),
{
    if events.len() > 0 {
        lemma_apply_step(s, events[0]);
        lemma_stage_entries(apply_next(s, events[0]).0, events.drop_first(), x);
    }
}

proof fn lemma_finished_run(s: ApplyFlow, events: Seq<BrowserEvent>)
    requires
        s.stage == ApplyStage::Finished,
    ensures
        apply_run(s, events) == s,
    decreases events.len(),
{
    if events.len() > 0 {
        lemma_apply_step(s, events[0]);
        lemma_finished_run(s, events.drop_first());
    }
}

proof fn lemma_success_closed(s: ApplyFlow, events: Seq<BrowserEvent>)
    requires
        s.stage != ApplyStage::Finished,
        apply_error_consistent(s),
        apply_run(s, events).stage == ApplyStage::Finished,
        apply_run(s, events).error is None,
    ensures
        closed_by_user(s, events),
    decreases events.len(),
{
    if events.len() > 0 {
        let e = events[0];
        let t = apply_next(s, e).0;
        lemma_apply_step(s, e);
        if t.stage == ApplyStage::Finished {
            lemma_finished_run(t, events.drop_first());
            if s.stage != ApplyStage::ErrorShot {
                law_apply_success_needs_close(s, e);
            }
        } else {
            lemma_success_closed(t, events.drop_first());
        }
    }
}

/// A whole apply run, whatever the browser answers: it presses the
/// vacancy's respond control at most once and the requested resume at most
/// once, and it succeeds only if, along the run, the user closed the browser.
pub proof fn law_apply_run(has_resume: bool, events: Seq<BrowserEvent>)
    ensures
        ({
            let s = ApplyFlow { stage: ApplyStage::CheckDriver, has_resume, error: None };
            &&& stage_entries(s, events, ApplyStage::ClickApply) <= 1
            &&& stage_entries(s, events, ApplyStage::ClickResume) <= 1
            &&& apply_run(s, events).stage == ApplyStage::Finished && apply_run(s, events).error is None
                ==> closed_by_user(s, events)
        }),
{
    let s = ApplyFlow { stage: ApplyStage::CheckDriver, has_resume, error: None };
    lemma_stage_entries(s, events, ApplyStage::ClickApply);
    lemma_stage_entries(s, events, ApplyStage::ClickResume);
    if apply_run(s, events).stage == ApplyStage::Finished && apply_run(s, events).error is None {
        lemma_success_closed(s, events);
    }
}

/// The cover letter is always filled in, with or without a resume: past the
/// form's CAPTCHA check the flow looks up the requested resume (when there is
/// one) and then, in every case, the cover-letter field; a found field is
/// cleared and the letter typed.
pub proof fn law_apply_fills_cover_letter(s: ApplyFlow, found: BrowserEvent, clicked: BrowserEvent)
    requires
        found is Scan,
        clicked == BrowserEvent::Done || clicked is Failed,
    ensures
        s.stage == ApplyStage::FormCaptcha && !s.has_resume ==> apply_next(
            s,
            BrowserEvent::Flag(false),
        ) == (
            ApplyFlow { stage: ApplyStage::FindLetter, ..s },
            BrowserAction::Probe(
                ScanGoal::FirstInteractable,
                ScanTarget::Group(LocatorSet::CoverLetterInput),
            ),
        ),
        s.stage == ApplyStage::FormCaptcha && s.has_resume ==> apply_next(
            s,
            BrowserEvent::Flag(false),
        ) == (
            ApplyFlow { stage: ApplyStage::FindResume, ..s },
            BrowserAction::Probe(ScanGoal::FirstInteractable, ScanTarget::ResumeControls),
        ),
        s.stage == ApplyStage::FindResume ==> {
            let (t, a) = apply_next(s, found);
            ||| t.stage == ApplyStage::FindLetter && a == BrowserAction::Probe(
                ScanGoal::FirstInteractable,
                ScanTarget::Group(LocatorSet::CoverLetterInput),
            )
            ||| t.stage == ApplyStage::ClickResume && a == BrowserAction::ClickMatched
                && apply_next(t, clicked).0.stage == ApplyStage::FindLetter
        },
        s.stage == ApplyStage::FindLetter ==> {
            let (t1, a1) = apply_next(s, BrowserEvent::Scan(ScanOutcome::Element { loc: 0, elem: 0 }));
            let (t2, a2) = apply_next(t1, clicked);
            &&& a1 == BrowserAction::ClearMatched
            &&& a2 == BrowserAction::TypeCoverLetter
            &&& t2.stage == ApplyStage::TypeLetter
        },
{
}

/// The form is left for review only after the cover-letter field was looked
/// up: the ready screenshot is reached only from the cover-letter lookup or
/// from typing the letter.
pub proof fn law_apply_ready_only_after_letter(s: ApplyFlow, e: BrowserEvent)
    ensures
        ({
            let t = apply_next(s, e).0;
            t.stage == ApplyStage::ShotReady && s.stage != ApplyStage::ShotReady ==> s.stage
                == ApplyStage::FindLetter || s.stage == ApplyStage::TypeLetter
        }),
{
}

/// An apply run where the page and form load, no CAPTCHA shows, the respond
/// control takes the click and the letter field is found: it checks the
/// driver, opens a visible session and the vacancy, waits for the page,
/// checks for a CAPTCHA, pauses, presses the respond control, waits for the
/// form, checks it for a CAPTCHA, selects the resume when one was requested,
/// fills the cover letter, and waits for the user to close the browser; then
/// it succeeds.
pub proof fn law_apply_happy_path(has_resume: bool, found: ScanOutcome)
    requires
        found is Element,
    ensures
        ({
            let s0 = ApplyFlow { stage: ApplyStage::CheckDriver, has_resume, error: None };
            let d = BrowserEvent::Done;
            let (s1, a1) = apply_next(s0, d);
            let (s2, a2) = apply_next(s1, d);
            let (s3, a3) = apply_next(s2, d);
            let (s4, a4) = apply_next(s3, d);
            let (s5, a5) = apply_next(s4, BrowserEvent::Flag(false));
            let (s6, a6) = apply_next(s5, d);
            let (s7, a7) = apply_next(s6, d);
            let (s8, a8) = apply_next(s7, BrowserEvent::Scan(ScanOutcome::Clicked));
            let (s9, a9) = apply_next(s8, d);
            let (s10, a10) = apply_next(s9, d);
            let (s11, a11) = apply_next(s10, BrowserEvent::Flag(false));
            &&& apply_action(s0) == BrowserAction::CheckDriver
            &&& a1 == BrowserAction::CreateDriver { headless: false }
            &&& a2 == BrowserAction::Goto(Page::Vacancy)
            &&& a3 == BrowserAction::WaitFor(PageState::VacancyPage)
            &&& a4 == BrowserAction::DetectCaptcha
            &&& a5 == BrowserAction::Sleep(HUMAN_DELAY_MS)
            &&& a6 == BrowserAction::Screenshot(Shot::ApplyBeforeClick)
            &&& a7 == BrowserAction::Probe(
                ScanGoal::ClickFirstInteractable,
                ScanTarget::Group(LocatorSet::ApplyButtons),
            )
            &&& a8 == BrowserAction::WaitFor(PageState::ApplyForm)
            &&& a9 == BrowserAction::Screenshot(Shot::ApplyModal)
            &&& a10 == BrowserAction::DetectCaptcha
            &&& has_resume ==> a11 == BrowserAction::Probe(
                ScanGoal::FirstInteractable,
                ScanTarget::ResumeControls,
            ) && apply_next(s11, BrowserEvent::Scan(found)).1 == BrowserAction::ClickMatched
            &&& {
                let (l0, b0) = if has_resume {
                    apply_next(apply_next(s11, BrowserEvent::Scan(found)).0, d)
                } else {
                    (s11, a11)
                };
                let (l1, b1) = apply_next(l0, BrowserEvent::Scan(found));
                let (l2, b2) = apply_next(l1, d);
                let (l3, b3) = apply_next(l2, d);
                let (l4, b4) = apply_next(l3, d);
                let (l5, b5) = apply_next(l4, d);
                &&& b0 == BrowserAction::Probe(
                    ScanGoal::FirstInteractable,
                    ScanTarget::Group(LocatorSet::CoverLetterInput),
                )
                &&& b1 == BrowserAction::ClearMatched
                &&& b2 == BrowserAction::TypeCoverLetter
                &&& b3 == BrowserAction::Screenshot(Shot::ApplyReadyForReview)
                &&& b4 == BrowserAction::WaitForManualClose
                &&& b5 == BrowserAction::Finish
                &&& l5.stage == ApplyStage::Finished
                &&& l5.error is None
            }
        }),
{
}

} // verus!
