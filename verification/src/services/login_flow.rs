//! The login flow: open HH.ru's login page in the persistent profile and keep
//! the browser open until the user interrupts the program.
use vstd::prelude::*;

use crate::errors::AppError;
use crate::services::actions::{BrowserAction, BrowserEvent, Page};

verus! {

/// Where the login flow stands.
#[derive(Debug, Clone, Copy, PartialEq, Eq, Structural)]
pub enum LoginStage {
    CheckDriver,
    CreateDriver,
    Open,
    /// Waiting for Ctrl+C.
    Wait,
    Quit,
    Finished,
}

/// The login flow's state.
#[derive(Debug, Clone, PartialEq, Eq)]
pub struct LoginFlow {
    pub stage: LoginStage,
    pub headless: bool,
    pub error: Option<AppError>,
}

/// The action of each stage.
pub open spec fn login_action(s: LoginFlow) -> BrowserAction {
    match s.stage {
        LoginStage::CheckDriver => BrowserAction::CheckDriver,
        LoginStage::CreateDriver => BrowserAction::CreateDriver { headless: s.headless },
        LoginStage::Open => BrowserAction::Goto(Page::Login),
        LoginStage::Wait => BrowserAction::WaitForInterrupt,
        LoginStage::Quit => BrowserAction::Quit,
        LoginStage::Finished => BrowserAction::Finish,
    }
}

/// Moving to `stage`.
pub open spec fn login_at(s: LoginFlow, stage: LoginStage) -> (LoginFlow, BrowserAction) {
    let t = LoginFlow { stage, ..s };
    (t, login_action(t))
}

/// The next state and action of the login flow after event `e`: a failure
/// before the session exists ends the flow; a failure after it closes the
/// session and ends the flow with that failure.
pub open spec fn login_next(s: LoginFlow, e: BrowserEvent) -> (LoginFlow, BrowserAction) {
    let same = login_at(s, s.stage);
    match s.stage {
        LoginStage::CheckDriver => match e {
            BrowserEvent::Done => login_at(s, LoginStage::CreateDriver),
            BrowserEvent::Failed(err) => login_at(
                LoginFlow { error: Some(err), ..s },
                LoginStage::Finished,
            ),
            _ => same,
        },
        LoginStage::CreateDriver => match e {
            BrowserEvent::Done => login_at(s, LoginStage::Open),
            BrowserEvent::Failed(err) => login_at(
                LoginFlow { error: Some(err), ..s },
                LoginStage::Finished,
            ),
            _ => same,
        },
        LoginStage::Open => match e {
            BrowserEvent::Done => login_at(s, LoginStage::Wait),
            BrowserEvent::Failed(err) => login_at(LoginFlow { error: Some(err), ..s }, LoginStage::Quit),
            _ => same,
        },
        LoginStage::Wait => match e {
            BrowserEvent::Done => login_at(s, LoginStage::Quit),
            BrowserEvent::Failed(err) => login_at(LoginFlow { error: Some(err), ..s }, LoginStage::Quit),
            _ => same,
        },
        LoginStage::Quit => match e {
            BrowserEvent::Done | BrowserEvent::Failed(_) => login_at(s, LoginStage::Finished),
            _ => same,
        },
        LoginStage::Finished => (s, BrowserAction::Finish),
    }
}

impl LoginFlow {
    fn at(self, stage: LoginStage) -> (r: (LoginFlow, BrowserAction))
        ensures
            r == login_at(self, stage),
    {
        let t = LoginFlow { stage, ..self };
        let a = match stage {
            LoginStage::CheckDriver => BrowserAction::CheckDriver,
            LoginStage::CreateDriver => BrowserAction::CreateDriver { headless: self.headless },
            LoginStage::Open => BrowserAction::Goto(Page::Login),
            LoginStage::Wait => BrowserAction::WaitForInterrupt,
            LoginStage::Quit => BrowserAction::Quit,
            LoginStage::Finished => BrowserAction::Finish,
        };
        (t, a)
    }

    /// A login flow with the configured headless setting, and its first action.
    pub fn start(headless: bool) -> (r: (LoginFlow, BrowserAction))
        ensures
            r == login_at(
                LoginFlow { stage: LoginStage::CheckDriver, headless, error: None },
                LoginStage::CheckDriver,
            ),
    {
        LoginFlow { stage: LoginStage::CheckDriver, headless, error: None }.at(
            LoginStage::CheckDriver,
        )
    }

    /// The next state and action after event `e`.
    pub fn step(self, e: BrowserEvent) -> (r: (LoginFlow, BrowserAction))
        ensures
            r == login_next(self, e),
    {
        let stage = self.stage;
        match stage {
            LoginStage::CheckDriver | LoginStage::CreateDriver => match e {
                BrowserEvent::Done => {
                    if stage == LoginStage::CheckDriver {
                        self.at(LoginStage::CreateDriver)
                    } else {
                        self.at(LoginStage::Open)
                    }
                },
                BrowserEvent::Failed(err) => LoginFlow { error: Some(err), ..self }.at(
                    LoginStage::Finished,
                ),
                _ => self.at(stage),
            },
            LoginStage::Open | LoginStage::Wait => match e {
                BrowserEvent::Done => {
                    if stage == LoginStage::Open {
                        self.at(LoginStage::Wait)
                    } else {
                        self.at(LoginStage::Quit)
                    }
                },
                BrowserEvent::Failed(err) => LoginFlow { error: Some(err), ..self }.at(
                    LoginStage::Quit,
                ),
                _ => self.at(stage),
            },
            LoginStage::Quit => match e {
                BrowserEvent::Done | BrowserEvent::Failed(_) => self.at(LoginStage::Finished),
                _ => self.at(stage),
            },
            LoginStage::Finished => (self, BrowserAction::Finish),
        }
    }

    /// The result of the login flow.
    pub fn into_result(self) -> (r: Result<(), AppError>)
        ensures
            self.error is Some ==> r == Err::<(), AppError>(self.error->0),
            self.error is None ==> r is Ok,
    {
        match self.error {
            Some(err) => Err(err),
            None => Ok(()),
        }
    }
}

/// Once the browser session exists, the login flow finishes only by closing
/// it.
pub proof fn law_login_closes_session(s: LoginFlow, e: BrowserEvent)
    requires
        s.stage != LoginStage::Finished,
        login_next(s, e).1 == BrowserAction::Finish,
    ensures
        s.stage == LoginStage::Quit || ((s.stage == LoginStage::CheckDriver || s.stage
            == LoginStage::CreateDriver) && e is Failed),
{
}

/// A login run where everything answers opens the login page, waits for
/// Ctrl+C, closes the session and succeeds.
pub proof fn law_login_happy_path(headless: bool)
    ensures
        ({
            let s0 = LoginFlow { stage: LoginStage::CheckDriver, headless, error: None };
            let (s1, a1) = login_next(s0, BrowserEvent::Done);
            let (s2, a2) = login_next(s1, BrowserEvent::Done);
            let (s3, a3) = login_next(s2, BrowserEvent::Done);
            let (s4, a4) = login_next(s3, BrowserEvent::Done);
            let (s5, a5) = login_next(s4, BrowserEvent::Done);
            &&& login_action(s0) == BrowserAction::CheckDriver
            &&& a1 == BrowserAction::CreateDriver { headless }
            &&& a2 == BrowserAction::Goto(Page::Login)
            &&& a3 == BrowserAction::WaitForInterrupt
            &&& a4 == BrowserAction::Quit
            &&& a5 == BrowserAction::Finish
            &&& s5.stage == LoginStage::Finished
            &&& s5.error is None
        }),
{
}

} // verus!
