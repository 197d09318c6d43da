//! The close-watch machine: waits until the user has closed the browser.
use vstd::prelude::*;

use crate::services::actions::{BrowserAction, BrowserEvent, CLOSE_CHECK_INTERVAL_MS};

verus! {

/// Where the watch stands.
#[derive(Debug, Clone, Copy, PartialEq, Eq, Structural)]
pub enum CloseWatch {
    /// Pausing a second.
    Pause,
    /// Listing the open windows.
    Windows,
    /// Asking the current page's address.
    Address,
    /// The browser is closed.
    Closed,
}

/// The action of a watch stage.
pub open spec fn watch_action(w: CloseWatch) -> BrowserAction {
    match w {
        CloseWatch::Pause => BrowserAction::Sleep(CLOSE_CHECK_INTERVAL_MS),
        CloseWatch::Windows => BrowserAction::ListWindows,
        CloseWatch::Address => BrowserAction::ReadCurrentUrl,
        CloseWatch::Closed => BrowserAction::Finish,
    }
}

/// The next stage after event `e`: every second the open windows are listed
/// and the current address read; no window left, or a failure of either
/// query, means the user closed the browser.
pub open spec fn watch_next(w: CloseWatch, e: BrowserEvent) -> CloseWatch {
    match w {
        CloseWatch::Pause => match e {
            BrowserEvent::Done => CloseWatch::Windows,
            _ => w,
        },
        CloseWatch::Windows => match e {
            BrowserEvent::Count(n) => if n == 0 {
                CloseWatch::Closed
            } else {
                CloseWatch::Address
            },
            BrowserEvent::Failed(_) => CloseWatch::Closed,
            _ => w,
        },
        CloseWatch::Address => match e {
            BrowserEvent::Done => CloseWatch::Pause,
            BrowserEvent::Failed(_) => CloseWatch::Closed,
            _ => w,
        },
        CloseWatch::Closed => w,
    }
}

impl CloseWatch {
    fn action(self) -> (r: BrowserAction)
        ensures
            r == watch_action(self),
    {
        match self {
            CloseWatch::Pause => BrowserAction::Sleep(CLOSE_CHECK_INTERVAL_MS),
            CloseWatch::Windows => BrowserAction::ListWindows,
            CloseWatch::Address => BrowserAction::ReadCurrentUrl,
            CloseWatch::Closed => BrowserAction::Finish,
        }
    }

    /// A new watch and its first action.
    pub fn start() -> (r: (CloseWatch, BrowserAction))
        ensures
            r == (CloseWatch::Pause, watch_action(CloseWatch::Pause)),
    {
        (CloseWatch::Pause, CloseWatch::Pause.action())
    }

    /// The next stage and its action after event `e`.
    pub fn step(self, e: BrowserEvent) -> (r: (CloseWatch, BrowserAction))
        ensures
            r.0 == watch_next(self, e),
            r.1 == watch_action(r.0),
    {
        let next = match self {
            CloseWatch::Pause => match e {
                BrowserEvent::Done => CloseWatch::Windows,
                _ => self,
            },
            CloseWatch::Windows => match e {
                BrowserEvent::Count(n) => if n == 0 {
                    CloseWatch::Closed
                } else {
                    CloseWatch::Address
                },
                BrowserEvent::Failed(_) => CloseWatch::Closed,
                _ => self,
            },
            CloseWatch::Address => match e {
                BrowserEvent::Done => CloseWatch::Pause,
                BrowserEvent::Failed(_) => CloseWatch::Closed,
                _ => self,
            },
            CloseWatch::Closed => self,
        };
        (next, next.action())
    }
}

/// The watch polls every second while a window is open and the browser
/// answers: pause, list the windows, read the address, pause again; it ends
/// when no window is left or a query fails.
pub proof fn law_close_watch_polls(n: usize, err: crate::errors::AppError)
    ensures
        watch_next(CloseWatch::Pause, BrowserEvent::Done) == CloseWatch::Windows,
        n > 0 ==> watch_next(CloseWatch::Windows, BrowserEvent::Count(n)) == CloseWatch::Address,
        watch_next(CloseWatch::Windows, BrowserEvent::Count(0)) == CloseWatch::Closed,
        watch_next(CloseWatch::Windows, BrowserEvent::Failed(err)) == CloseWatch::Closed,
        watch_next(CloseWatch::Address, BrowserEvent::Done) == CloseWatch::Pause,
        watch_next(CloseWatch::Address, BrowserEvent::Failed(err)) == CloseWatch::Closed,
        watch_action(CloseWatch::Pause) == BrowserAction::Sleep(CLOSE_CHECK_INTERVAL_MS),
        watch_action(CloseWatch::Windows) == BrowserAction::ListWindows,
        watch_action(CloseWatch::Address) == BrowserAction::ReadCurrentUrl,
{
}

} // verus!
