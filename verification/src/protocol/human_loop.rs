//! Human-in-loop tool (`tool.request_help`).
//!
//! Lets an agent pause and ask the human to complete an in-page step
//! (captcha, login, confirmation).

use vstd::prelude::*;

verus! {

/// One component the user is asked to look at / interact with. Exactly
/// one of `ref` / `selector` should be supplied.
#[derive(Debug, Clone, PartialEq)]
pub struct HelpTarget {
    pub ref_: Option<String>,
    pub selector: Option<String>,
}

#[derive(Debug, Clone, PartialEq)]
pub struct RequestHelpParams {
    pub session_id: String,
    /// Target tab. Defaults to the Agent Window's active tab.
    pub tab_id: Option<i64>,
    /// Message shown to the user explaining what to do.
    pub prompt: String,
    /// Optional custom title for the help overlay.
    pub title: Option<String>,
    /// Optional components to scroll to + flash-highlight.
    pub targets: Option<Vec<HelpTarget>>,
    /// Optional explicit success detector.
    pub completion_criteria: Option<HelpCompletionCriteria>,
    /// Hard upper bound on the wait (at least 1 when present).
    pub timeout_ms: Option<u32>,
}

#[derive(Debug, Clone, PartialEq)]
pub struct HelpCompletionCriteria {
    pub any: Option<Vec<HelpCompletionCondition>>,
    pub all: Option<Vec<HelpCompletionCondition>>,
    pub stable_for_ms: Option<u32>,
}

#[derive(Debug, Clone, PartialEq)]
pub struct HelpCompletionCondition {
    pub url_contains: Option<String>,
    pub url_matches: Option<String>,
    pub selector_exists: Option<String>,
    pub selector_missing: Option<String>,
    pub text_exists: Option<String>,
    pub text_missing: Option<String>,
}

#[derive(Debug, Clone, Copy, PartialEq, Eq)]
pub enum HelpOutcome {
    /// User completed the step and clicked Done / return control.
    Continued,
    /// User declined / aborted via the overlay's Cancel button.
    Cancelled,
    /// The wait expired before the user acted.
    TimedOut,
    /// Explicit success criteria matched while the user had control.
    Completed,
    /// The page navigated while waiting (deprecated).
    Navigated,
    /// request-help is disabled by configuration.
    Disabled,
}

/// Wire name of a help outcome.
pub open spec fn help_outcome_name(o: HelpOutcome) -> Seq<char> {
    match o {
        HelpOutcome::Continued => "continued"@,
        HelpOutcome::Cancelled => "cancelled"@,
        HelpOutcome::TimedOut => "timed_out"@,
        HelpOutcome::Completed => "completed"@,
        HelpOutcome::Navigated => "navigated"@,
        HelpOutcome::Disabled => "disabled"@,
    }
}

impl HelpOutcome {
    pub fn as_str(self) -> (r: &'static str)
        ensures
            r@ == help_outcome_name(self),
    {
        match self {
            HelpOutcome::Continued => "continued",
            HelpOutcome::Cancelled => "cancelled",
            HelpOutcome::TimedOut => "timed_out",
            HelpOutcome::Completed => "completed",
            HelpOutcome::Navigated => "navigated",
            HelpOutcome::Disabled => "disabled",
        }
    }
}

#[derive(Debug, Clone, Copy, PartialEq, Eq)]
pub enum HelpCompletedBy {
    System,
}

/// Per-target resolution status echoed back so the agent can tell which
/// `ref` / `selector` actually matched a live element.
#[derive(Debug, Clone, PartialEq)]
pub struct ResolvedTarget {
    pub matched: bool,
    pub ref_: Option<String>,
    pub selector: Option<String>,
}

#[derive(Debug, Clone, PartialEq)]
pub struct RequestHelpResult {
    pub outcome: HelpOutcome,
    pub completed_by: Option<HelpCompletedBy>,
    pub note: Option<String>,
    pub tab_id: i64,
    pub resolved_targets: Option<Vec<ResolvedTarget>>,
}

} // verus!
