//! The browser-driven services: search and apply.
pub mod actions;
pub mod apply_flow;
pub mod browser;
pub mod card;
pub mod close_watch;
pub mod job_search;
pub mod login_flow;
pub mod page_state;
pub mod scan;
pub mod search_flow;
pub mod selectors;
pub mod targets;
