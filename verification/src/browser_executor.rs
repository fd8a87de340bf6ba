//! Browser automation harness: configuration and statistics.
//!
//! The harness launches a headless browser, executes [`BrowserAction`]
//! values against it with resource limits and restarts it on a crash.
//! Launching, page handling and crash recovery are remote-procedure work
//! that lives with the caller; the configuration surface and the counters
//! it reports are defined here.
//!
//! [`BrowserAction`]: crate::browser_actions::BrowserAction

use vstd::prelude::*;

verus! {

/// Errors of the browser harness.
#[derive(Debug)]
pub enum ExecutorError {
    /// The browser could not be launched.
    LaunchFailed(String),
    /// The browser crashed.
    BrowserCrashed(String),
    /// The page reported an error.
    PageError(String),
    /// An operation exceeded its time budget.
    Timeout(String),
    /// A resource limit was exceeded.
    ResourceLimitExceeded(String),
    /// An action failed.
    ActionFailed(String),
}

/// Configuration of the browser harness.
#[derive(Debug, Clone)]
pub struct ExecutorConfig {
    /// Memory budget in MiB.
    pub max_memory_mb: u64,
    /// Total execution budget in seconds.
    pub max_execution_time_secs: u64,
    /// Default per-action budget in seconds.
    pub default_timeout_secs: u64,
    /// Run without a visible window.
    pub headless: bool,
    /// Skip image loading.
    pub disable_images: bool,
    /// Disable script execution.
    pub disable_javascript: bool,
    /// User agent to present, when set.
    pub user_agent: Option<String>,
    /// Viewport width in pixels.
    pub viewport_width: u32,
    /// Viewport height in pixels.
    pub viewport_height: u32,
    /// Run the browser inside the sandbox.
    pub enable_sandbox: bool,
}

impl Default for ExecutorConfig {
    /// Headless full-HD browsing with a 512 MiB budget and sandboxing on.
    fn default() -> (r: ExecutorConfig)
        ensures
            r.max_memory_mb == 512,
            r.max_execution_time_secs == 30,
            r.default_timeout_secs == 10,
            r.headless,
            !r.disable_images,
            !r.disable_javascript,
            r.user_agent matches Some(ua) && ua@ == "Mozilla/5.0 (X11; Linux x86_64) AppleWebKit/537.36"@,
            r.viewport_width == 1920,
            r.viewport_height == 1080,
            r.enable_sandbox,
    {
        ExecutorConfig {
            max_memory_mb: 512,
            max_execution_time_secs: 30,
            default_timeout_secs: 10,
            headless: true,
            disable_images: false,
            disable_javascript: false,
            user_agent: Some("Mozilla/5.0 (X11; Linux x86_64) AppleWebKit/537.36".to_owned()),
            viewport_width: 1920,
            viewport_height: 1080,
            enable_sandbox: true,
        }
    }
}

/// Counters of a browser session.
#[derive(Debug, Clone)]
pub struct ExecutorStats {
    /// Actions attempted.
    pub total_actions: u64,
    /// Actions that succeeded.
    pub successful_actions: u64,
    /// Actions that failed.
    pub failed_actions: u64,
    /// Browser crashes observed.
    pub crashes: u64,
    /// Browser restarts performed.
    pub restarts: u64,
    /// Total time spent executing actions, in milliseconds.
    pub total_execution_time_ms: u64,
}

impl Default for ExecutorStats {
    /// All counters at zero.
    fn default() -> (r: ExecutorStats)
        ensures
            r.total_actions == 0,
            r.successful_actions == 0,
            r.failed_actions == 0,
            r.crashes == 0,
            r.restarts == 0,
            r.total_execution_time_ms == 0,
    {
        ExecutorStats {
            total_actions: 0,
            successful_actions: 0,
            failed_actions: 0,
            crashes: 0,
            restarts: 0,
            total_execution_time_ms: 0,
        }
    }
}

impl ExecutorStats {
    /// Record the outcome of one action: the total and the matching
    /// outcome counter step forward, saturating at the machine limit, and
    /// the spent time grows by the action's duration.
    pub fn record_action(&mut self, success: bool, duration_ms: u64)
        ensures
            final(self).total_actions as int == crate::detector::sat_inc(
                old(self).total_actions as int,
            ),
            success ==> final(self).successful_actions as int == crate::detector::sat_inc(
                old(self).successful_actions as int,
            ) && final(self).failed_actions == old(self).failed_actions,
            !success ==> final(self).failed_actions as int == crate::detector::sat_inc(
                old(self).failed_actions as int,
            ) && final(self).successful_actions == old(self).successful_actions,
            final(self).total_execution_time_ms == old(self).total_execution_time_ms.saturating_add(
                duration_ms,
            ),
            final(self).crashes == old(self).crashes,
            final(self).restarts == old(self).restarts,
    {
        self.total_actions = if self.total_actions < u64::MAX {
            self.total_actions + 1
        } else {
            self.total_actions
        };
        if success {
            self.successful_actions = if self.successful_actions < u64::MAX {
                self.successful_actions + 1
            } else {
                self.successful_actions
            };
        } else {
            self.failed_actions = if self.failed_actions < u64::MAX {
                self.failed_actions + 1
            } else {
                self.failed_actions
            };
        }
        self.total_execution_time_ms = self.total_execution_time_ms.saturating_add(duration_ms);
    }
}

} // verus!
