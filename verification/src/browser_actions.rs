//! Browser action primitives for web automation.
//!
//! An action is a value describing one step a browser session performs:
//! navigation, clicks, typed text, scrolling, waits, reads, script
//! evaluation or a screenshot. Driving a live page with these actions is
//! remote-procedure work that lives with the caller; the action model and
//! its outcome shape are defined here. Durations are millisecond counts.

use vstd::prelude::*;

verus! {

/// Errors of action execution.
#[derive(Debug)]
pub enum ActionError {
    /// No element matched the selector.
    ElementNotFound(String),
    /// Waiting for the element timed out.
    Timeout(String),
    /// The selector was malformed.
    InvalidSelector(String),
    /// The action itself failed.
    ActionFailed(String),
    /// Navigation failed.
    NavigationFailed(String),
    /// The browser reported an error.
    BrowserError(String),
}

/// Result type of actions.
pub type ActionResult<T> = Result<T, ActionError>;

/// Page-load wait conditions.
#[derive(Debug, Clone, Copy, PartialEq, Eq, Structural)]
pub enum WaitCondition {
    /// Wait for the initial HTML load.
    Load,
    /// Wait for the DOM content to be loaded.
    DomContentLoaded,
    /// Wait for network activity to settle.
    NetworkIdle,
    /// Do not wait.
    NoWait,
}

impl Default for WaitCondition {
    /// Waiting for the initial load.
    fn default() -> (r: WaitCondition)
        ensures
            r == WaitCondition::Load,
    {
        WaitCondition::Load
    }
}

/// One step of a browser session.
#[derive(Debug, Clone)]
pub enum BrowserAction {
    /// Navigate to a URL.
    Navigate { url: String, wait_until: WaitCondition },
    /// Click an element.
    Click { selector: String, wait_for_ms: Option<u64> },
    /// Type text into an element.
    Type { selector: String, text: String, clear_first: bool },
    /// Scroll to an element or to a position.
    Scroll { selector: Option<String>, x: Option<i32>, y: Option<i32> },
    /// Wait for an element to appear.
    WaitFor { selector: String, timeout_ms: u64, visible: bool },
    /// Read an element's text.
    GetText { selector: String },
    /// Read an element's attribute.
    GetAttribute { selector: String, attribute: String },
    /// Evaluate a script on the page.
    ExecuteScript { script: String },
    /// Take a screenshot.
    Screenshot { full_page: bool },
    /// Go back in history.
    GoBack,
    /// Go forward in history.
    GoForward,
    /// Reload the page.
    Reload,
}

/// The outcome of one executed action.
#[derive(Debug, Clone)]
pub struct ActionOutput {
    /// Whether the action succeeded.
    pub success: bool,
    /// Data the action produced, when any.
    pub data: Option<String>,
    /// The error message, when the action failed.
    pub error: Option<String>,
    /// How long the action took, in milliseconds.
    pub duration_ms: u64,
}

} // verus!
