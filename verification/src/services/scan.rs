//! The scan machine: tries the locators of a list in order, and the elements
//! each one matches, until the scan's goal is met.
use vstd::prelude::*;

use crate::errors::AppError;
use crate::services::actions::{BrowserAction, BrowserEvent, ScanGoal, ScanOutcome};
use crate::services::browser::{is_non_interactable_webdriver_error, non_interactable_message};

verus! {

/// Where a scan stands.
#[derive(Debug, Clone, Copy, PartialEq, Eq, Structural)]
pub enum ScanPhase {
    /// Looking up the elements of the current locator.
    Lookup,
    /// Asking whether element `j` is displayed.
    Displayed(usize),
    /// Asking whether element `j` is enabled.
    Enabled(usize),
    /// Scrolling element `j` into view.
    Scrolling(usize),
    /// Clicking element `j`.
    Clicking(usize),
    /// Done; the outcome is set.
    Finished,
}

/// A scan over `locators` locators.
#[derive(Debug, Clone, PartialEq, Eq)]
pub struct LocatorScan {
    pub goal: ScanGoal,
    pub locators: usize,
    /// The current locator.
    pub loc: usize,
    /// The number of elements the current locator matched.
    pub count: usize,
    pub phase: ScanPhase,
    pub outcome: Option<ScanOutcome>,
}

impl LocatorScan {
    /// The phase is consistent with the counters.
    pub open spec fn wf(&self) -> bool {
        &&& self.loc <= self.locators
        &&& (self.phase != ScanPhase::Finished ==> self.outcome is None)
        &&& match self.phase {
            ScanPhase::Lookup => self.loc < self.locators,
            ScanPhase::Displayed(j) | ScanPhase::Enabled(j) | ScanPhase::Scrolling(j)
            | ScanPhase::Clicking(j) => self.loc < self.locators && j < self.count,
            ScanPhase::Finished => self.outcome is Some,
        }
    }

    /// The action of the current phase.
    pub open spec fn current_action(&self) -> BrowserAction {
        match self.phase {
            ScanPhase::Lookup => if self.goal == ScanGoal::FirstPresent {
                BrowserAction::Find(self.loc)
            } else {
                BrowserAction::FindAll(self.loc)
            },
            ScanPhase::Displayed(j) => BrowserAction::IsDisplayed(j),
            ScanPhase::Enabled(j) => BrowserAction::IsEnabled(j),
            ScanPhase::Scrolling(j) => BrowserAction::ScrollIntoView(j),
            ScanPhase::Clicking(j) => BrowserAction::Click(j),
            ScanPhase::Finished => BrowserAction::Finish,
        }
    }
}

/// The outcome when every locator has been tried without meeting the goal.
pub open spec fn exhausted(goal: ScanGoal) -> ScanOutcome {
    if goal == ScanGoal::ClickFirstInteractable {
        ScanOutcome::NoCandidate
    } else {
        ScanOutcome::NotFound
    }
}

/// Finishing with outcome `o`.
pub open spec fn finish(s: LocatorScan, o: ScanOutcome) -> (LocatorScan, BrowserAction) {
    (LocatorScan { phase: ScanPhase::Finished, outcome: Some(o), ..s }, BrowserAction::Finish)
}

/// Moving to locator `loc`, or finishing when there is none left.
pub open spec fn at_locator(s: LocatorScan, loc: usize) -> (LocatorScan, BrowserAction) {
    if loc < s.locators {
        let t = LocatorScan { loc, count: 0, phase: ScanPhase::Lookup, ..s };
        (t, t.current_action())
    } else {
        finish(LocatorScan { loc: s.locators, ..s }, exhausted(s.goal))
    }
}

/// Moving to element `j` of the current locator, or to the next locator when
/// there is none left.
pub open spec fn at_element(s: LocatorScan, j: usize) -> (LocatorScan, BrowserAction) {
    if j < s.count {
        (LocatorScan { phase: ScanPhase::Displayed(j), ..s }, BrowserAction::IsDisplayed(j))
    } else {
        at_locator(s, (s.loc + 1) as usize)
    }
}

/// The scan's next state and action after event `e`. An event that the
/// current action cannot produce leaves the scan as it is.
pub open spec fn scan_next(s: LocatorScan, e: BrowserEvent) -> (LocatorScan, BrowserAction) {
    let g = s.goal;
    match s.phase {
        ScanPhase::Lookup => if g == ScanGoal::FirstPresent {
            match e {
                BrowserEvent::Done => finish(s, ScanOutcome::Element { loc: s.loc, elem: 0 }),
                BrowserEvent::Missing => at_locator(s, (s.loc + 1) as usize),
                BrowserEvent::Failed(err) => finish(s, ScanOutcome::Error(err)),
                _ => (s, s.current_action()),
            }
        } else {
            match e {
                BrowserEvent::Count(c) => if g == ScanGoal::AnyPresent {
                    if c > 0 {
                        finish(s, ScanOutcome::Found)
                    } else {
                        at_locator(s, (s.loc + 1) as usize)
                    }
                } else if g == ScanGoal::FirstNonEmpty {
                    if c > 0 {
                        finish(s, ScanOutcome::Elements { loc: s.loc, count: c })
                    } else {
                        at_locator(s, (s.loc + 1) as usize)
                    }
                } else {
                    at_element(LocatorScan { count: c, ..s }, 0)
                },
                BrowserEvent::Failed(err) => if g == ScanGoal::ClickFirstInteractable {
                    finish(s, ScanOutcome::ClickError(err))
                } else {
                    finish(s, ScanOutcome::Error(err))
                },
                _ => (s, s.current_action()),
            }
        },
        ScanPhase::Displayed(j) => match e {
            BrowserEvent::Flag(true) => if g == ScanGoal::AnyDisplayed {
                finish(s, ScanOutcome::Found)
            } else {
                (LocatorScan { phase: ScanPhase::Enabled(j), ..s }, BrowserAction::IsEnabled(j))
            },
            BrowserEvent::Flag(false) => at_element(s, (j + 1) as usize),
            BrowserEvent::Failed(err) => if g == ScanGoal::ClickFirstInteractable {
                at_element(s, (j + 1) as usize)
            } else {
                finish(s, ScanOutcome::Error(err))
            },
            _ => (s, s.current_action()),
        },
        ScanPhase::Enabled(j) => match e {
            BrowserEvent::Flag(true) => (
                LocatorScan { phase: ScanPhase::Scrolling(j), ..s },
                BrowserAction::ScrollIntoView(j),
            ),
            BrowserEvent::Flag(false) => at_element(s, (j + 1) as usize),
            BrowserEvent::Failed(err) => if g == ScanGoal::ClickFirstInteractable {
                at_element(s, (j + 1) as usize)
            } else {
                finish(s, ScanOutcome::Error(err))
            },
            _ => (s, s.current_action()),
        },
        ScanPhase::Scrolling(j) => match e {
            BrowserEvent::Done | BrowserEvent::Failed(_) => if g
                == ScanGoal::ClickFirstInteractable {
                (LocatorScan { phase: ScanPhase::Clicking(j), ..s }, BrowserAction::Click(j))
            } else {
                finish(s, ScanOutcome::Element { loc: s.loc, elem: j })
            },
            _ => (s, s.current_action()),
        },
        ScanPhase::Clicking(j) => match e {
            BrowserEvent::Done => finish(s, ScanOutcome::Clicked),
            BrowserEvent::Failed(err) => if err is Browser && non_interactable_message(
                err->Browser_0@,
            ) {
                at_element(s, (j + 1) as usize)
            } else {
                finish(s, ScanOutcome::ClickError(err))
            },
            _ => (s, s.current_action()),
        },
        ScanPhase::Finished => (s, BrowserAction::Finish),
    }
}

impl LocatorScan {
    fn finish_with(self, o: ScanOutcome) -> (r: (LocatorScan, BrowserAction))
        ensures
            r == finish(self, o),
    {
        (LocatorScan { phase: ScanPhase::Finished, outcome: Some(o), ..self }, BrowserAction::Finish)
    }

    fn action(&self) -> (r: BrowserAction)
        ensures
            r == self.current_action(),
    {
        match self.phase {
            ScanPhase::Lookup => if self.goal == ScanGoal::FirstPresent {
                BrowserAction::Find(self.loc)
            } else {
                BrowserAction::FindAll(self.loc)
            },
            ScanPhase::Displayed(j) => BrowserAction::IsDisplayed(j),
            ScanPhase::Enabled(j) => BrowserAction::IsEnabled(j),
            ScanPhase::Scrolling(j) => BrowserAction::ScrollIntoView(j),
            ScanPhase::Clicking(j) => BrowserAction::Click(j),
            ScanPhase::Finished => BrowserAction::Finish,
        }
    }

    fn goto_locator(self, loc: usize) -> (r: (LocatorScan, BrowserAction))
        requires
            loc <= self.locators,
            self.outcome is None,
        ensures
            r == at_locator(self, loc),
            r.0.wf(),
    {
        if loc < self.locators {
            let t = LocatorScan { loc, count: 0, phase: ScanPhase::Lookup, ..self };
            let a = t.action();
            (t, a)
        } else {
            let o = if self.goal == ScanGoal::ClickFirstInteractable {
                ScanOutcome::NoCandidate
            } else {
                ScanOutcome::NotFound
            };
            let n = self.locators;
            LocatorScan { loc: n, ..self }.finish_with(o)
        }
    }

    fn goto_element(self, j: usize) -> (r: (LocatorScan, BrowserAction))
        requires
            self.loc < self.locators,
            j <= self.count,
            self.outcome is None,
        ensures
            r == at_element(self, j),
            r.0.wf(),
    {
        if j < self.count {
            (LocatorScan { phase: ScanPhase::Displayed(j), ..self }, BrowserAction::IsDisplayed(j))
        } else {
            let next = self.loc + 1;
            self.goto_locator(next)
        }
    }

    /// A scan with goal `goal` over `locators` locators, and its first action.
    pub fn start(goal: ScanGoal, locators: usize) -> (r: (LocatorScan, BrowserAction))
        ensures
            r == at_locator(
                LocatorScan {
                    goal,
                    locators,
                    loc: 0,
                    count: 0,
                    phase: ScanPhase::Lookup,
                    outcome: None,
                },
                0,
            ),
            r.0.wf(),
    {
        LocatorScan {
            goal,
            locators,
            loc: 0,
            count: 0,
            phase: ScanPhase::Lookup,
            outcome: None,
        }.goto_locator(0)
    }

    /// The next state and action after the event `e`.
    pub fn step(self, e: BrowserEvent) -> (r: (LocatorScan, BrowserAction))
        requires
            self.wf(),
        ensures
            r == scan_next(self, e),
            r.0.wf(),
    {
        let g = self.goal;
        match self.phase {
            ScanPhase::Lookup => {
                if g == ScanGoal::FirstPresent {
                    match e {
                        BrowserEvent::Done => {
                            let loc = self.loc;
                            self.finish_with(ScanOutcome::Element { loc, elem: 0 })
                        },
                        BrowserEvent::Missing => {
                            let next = self.loc + 1;
                            self.goto_locator(next)
                        },
                        BrowserEvent::Failed(err) => self.finish_with(ScanOutcome::Error(err)),
                        _ => {
                            let a = self.action();
                            (self, a)
                        },
                    }
                } else {
                    match e {
                        BrowserEvent::Count(c) => {
                            if g == ScanGoal::AnyPresent {
                                if c > 0 {
                                    self.finish_with(ScanOutcome::Found)
                                } else {
                                    let next = self.loc + 1;
                                    self.goto_locator(next)
                                }
                            } else if g == ScanGoal::FirstNonEmpty {
                                if c > 0 {
                                    let loc = self.loc;
                                    self.finish_with(ScanOutcome::Elements { loc, count: c })
                                } else {
                                    let next = self.loc + 1;
                                    self.goto_locator(next)
                                }
                            } else {
                                LocatorScan { count: c, ..self }.goto_element(0)
                            }
                        },
                        BrowserEvent::Failed(err) => {
                            if g == ScanGoal::ClickFirstInteractable {
                                self.finish_with(ScanOutcome::ClickError(err))
                            } else {
                                self.finish_with(ScanOutcome::Error(err))
                            }
                        },
                        _ => {
                            let a = self.action();
                            (self, a)
                        },
                    }
                }
            },
            ScanPhase::Displayed(j) => match e {
                BrowserEvent::Flag(true) => {
                    if g == ScanGoal::AnyDisplayed {
                        self.finish_with(ScanOutcome::Found)
                    } else {
                        (
                            LocatorScan { phase: ScanPhase::Enabled(j), ..self },
                            BrowserAction::IsEnabled(j),
                        )
                    }
                },
                BrowserEvent::Flag(false) => self.goto_element(j + 1),
                BrowserEvent::Failed(err) => {
                    if g == ScanGoal::ClickFirstInteractable {
                        self.goto_element(j + 1)
                    } else {
                        self.finish_with(ScanOutcome::Error(err))
                    }
                },
                _ => {
                    let a = self.action();
                    (self, a)
                },
            },
            ScanPhase::Enabled(j) => match e {
                BrowserEvent::Flag(true) => (
                    LocatorScan { phase: ScanPhase::Scrolling(j), ..self },
                    BrowserAction::ScrollIntoView(j),
                ),
                BrowserEvent::Flag(false) => self.goto_element(j + 1),
                BrowserEvent::Failed(err) => {
                    if g == ScanGoal::ClickFirstInteractable {
                        self.goto_element(j + 1)
                    } else {
                        self.finish_with(ScanOutcome::Error(err))
                    }
                },
                _ => {
                    let a = self.action();
                    (self, a)
                },
            },
            ScanPhase::Scrolling(j) => match e {
                BrowserEvent::Done | BrowserEvent::Failed(_) => {
                    if g == ScanGoal::ClickFirstInteractable {
                        (
                            LocatorScan { phase: ScanPhase::Clicking(j), ..self },
                            BrowserAction::Click(j),
                        )
                    } else {
                        let loc = self.loc;
                        self.finish_with(ScanOutcome::Element { loc, elem: j })
                    }
                },
                _ => {
                    let a = self.action();
                    (self, a)
                },
            },
            ScanPhase::Clicking(j) => match e {
                BrowserEvent::Done => self.finish_with(ScanOutcome::Clicked),
                BrowserEvent::Failed(err) => {
                    let skip = match &err {
                        AppError::Browser(m) => is_non_interactable_webdriver_error(m.as_str()),
                        _ => false,
                    };
                    if skip {
                        self.goto_element(j + 1)
                    } else {
                        self.finish_with(ScanOutcome::ClickError(err))
                    }
                },
                _ => {
                    let a = self.action();
                    (self, a)
                },
            },
            ScanPhase::Finished => (self, BrowserAction::Finish),
        }
    }
}

/// A scan never reports that nothing matched before it has tried every
/// locator, and it reports an element only of a locator it has reached.
pub proof fn law_scan_exhausts_before_giving_up(s: LocatorScan, e: BrowserEvent)
    requires
        s.wf(),
        s.phase != ScanPhase::Finished,
    ensures
        ({
            let (t, a) = scan_next(s, e);
            &&& t.outcome == Some(ScanOutcome::NotFound) || t.outcome == Some(
                ScanOutcome::NoCandidate,
            ) ==> t.loc == t.locators
            &&& (t.outcome matches Some(ScanOutcome::Element { loc, elem }) ==> loc < t.locators)
            &&& (t.phase == ScanPhase::Finished <==> a == BrowserAction::Finish)
        }),
{
}

/// A lookup that matches nothing moves the scan on to the next locator, in
/// order: an empty `FindAll` (or a missing `Find` for a single-element
/// lookup) at locator `loc` is followed by the lookup of locator `loc + 1`
/// while there is one.
pub proof fn law_scan_tries_next_locator(s: LocatorScan, e: BrowserEvent)
    requires
        s.wf(),
        s.phase == ScanPhase::Lookup,
        s.loc + 1 < s.locators,
        (s.goal == ScanGoal::FirstPresent && e == BrowserEvent::Missing) || (s.goal
            != ScanGoal::FirstPresent && e == BrowserEvent::Count(0)),
    ensures
        ({
            let (t, a) = scan_next(s, e);
            &&& t.phase == ScanPhase::Lookup
            &&& t.loc == s.loc + 1
            &&& t.outcome is None
            &&& a == if s.goal == ScanGoal::FirstPresent {
                BrowserAction::Find((s.loc + 1) as usize)
            } else {
                BrowserAction::FindAll((s.loc + 1) as usize)
            }
        }),
{
}

/// A scan gives up (nothing found, or nothing clickable) only on the step
/// that handles its last locator.
pub proof fn law_scan_gives_up_only_at_last_locator(s: LocatorScan, e: BrowserEvent)
    requires
        s.wf(),
        s.phase != ScanPhase::Finished,
    ensures
        ({
            let t = scan_next(s, e).0;
            t.outcome == Some(ScanOutcome::NotFound) || t.outcome == Some(ScanOutcome::NoCandidate)
                ==> s.loc + 1 == s.locators
        }),
{
}

/// A lookup that matches elements ends the scan for the goals that look for
/// presence: `AnyPresent` reports that something matched, `FirstNonEmpty`
/// reports the locator and all its elements.
pub proof fn law_scan_stops_at_first_match(s: LocatorScan, c: usize)
    requires
        s.wf(),
        s.phase == ScanPhase::Lookup,
        c > 0,
    ensures
        s.goal == ScanGoal::AnyPresent ==> scan_next(s, BrowserEvent::Count(c)) == (
            LocatorScan { phase: ScanPhase::Finished, outcome: Some(ScanOutcome::Found), ..s },
            BrowserAction::Finish,
        ),
        s.goal == ScanGoal::FirstNonEmpty ==> scan_next(s, BrowserEvent::Count(c)) == (
            LocatorScan {
                phase: ScanPhase::Finished,
                outcome: Some(ScanOutcome::Elements { loc: s.loc, count: c }),
                ..s
            },
            BrowserAction::Finish,
        ),
{
}

} // verus!
