//! Agent-first browser automation core: the Chrome DevTools Protocol
//! decisions, message shapes and data extraction, verified.
//!
//! - **protocol**: CDP message types, transport bookkeeping, session
//!   targeting
//! - **browser**: launch command line, endpoint discovery, contexts
//! - **page**: navigation, evaluation, queries, input
//! - **element**: element handle requests
//! - **network**: requests, responses, interception routes
use vstd::prelude::*;

pub mod browser;
pub mod codec;
pub mod element;
pub mod error;
pub mod json;
pub mod network;
pub mod page;
pub mod protocol;
pub mod text;

use crate::browser::launcher::BrowserType;

verus! {

/// The main entry point for playwLeft.
///
/// Provides access to browser types (currently Chromium only).
#[derive(Debug, Clone, PartialEq)]
pub struct PlaywLeft {
    pub chromium: BrowserType,
}

impl PlaywLeft {
    /// Create a new PlaywLeft instance.
    pub fn new() -> (r: PlaywLeft)
        ensures
            r.chromium.spec_name() == "chromium"@,
    {
        PlaywLeft { chromium: BrowserType::chromium() }
    }
}

impl Default for PlaywLeft {
    fn default() -> (r: PlaywLeft)
        ensures
            r.chromium.spec_name() == "chromium"@,
    {
        PlaywLeft::new()
    }
}

} // verus!
