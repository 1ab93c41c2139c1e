//! The error type shared by every component of the monitor.

use vstd::prelude::*;

verus! {

/// Everything that can go wrong while handling a push notification.
///
/// Each variant carries the human-readable cause. The three last variants hold
/// the text of a failure that happened at the edge of the service (reading a
/// file, talking HTTP, decoding JSON).
#[derive(Debug, Clone, PartialEq, Eq)]
pub enum MonitorError {
    WebhookValidation(String),
    GitHubApi(String),
    PackageManager(String),
    AppManager(String),
    Config(String),
    Io(String),
    Http(String),
    Json(String),
}

/// `Result` with [`MonitorError`] as its error.
pub type Result<T> = core::result::Result<T, MonitorError>;

impl MonitorError {
    /// The cause that the variant carries.
    pub open spec fn detail(&self) -> Seq<char> {
        match self {
            MonitorError::WebhookValidation(m) => m@,
            MonitorError::GitHubApi(m) => m@,
            MonitorError::PackageManager(m) => m@,
            MonitorError::AppManager(m) => m@,
            MonitorError::Config(m) => m@,
            MonitorError::Io(m) => m@,
            MonitorError::Http(m) => m@,
            MonitorError::Json(m) => m@,
        }
    }

    /// The words that introduce the cause in the rendered message.
    pub open spec fn heading(&self) -> Seq<char> {
        match self {
            MonitorError::WebhookValidation(_) => "Webhook validation failed: "@,
            MonitorError::GitHubApi(_) => "GitHub API error: "@,
            MonitorError::PackageManager(_) => "Package manager error: "@,
            MonitorError::AppManager(_) => "Application management error: "@,
            MonitorError::Config(_) => "Configuration error: "@,
            MonitorError::Io(_) => "IO error: "@,
            MonitorError::Http(_) => "HTTP error: "@,
            MonitorError::Json(_) => "JSON error: "@,
        }
    }

    /// The rendered message: heading, then cause.
    pub open spec fn text(&self) -> Seq<char> {
        self.heading() + self.detail()
    }

    /// Renders the error as a line of text.
    pub fn message(&self) -> (s: String)
        ensures
            s@ == self.text(),
    {
        match self {
            MonitorError::WebhookValidation(m) => String::from_str("Webhook validation failed: ").concat(m.as_str()),
            MonitorError::GitHubApi(m) => String::from_str("GitHub API error: ").concat(m.as_str()),
            MonitorError::PackageManager(m) => String::from_str("Package manager error: ").concat(m.as_str()),
            MonitorError::AppManager(m) => String::from_str("Application management error: ").concat(
                m.as_str(),
            ),
            MonitorError::Config(m) => String::from_str("Configuration error: ").concat(m.as_str()),
            MonitorError::Io(m) => String::from_str("IO error: ").concat(m.as_str()),
            MonitorError::Http(m) => String::from_str("HTTP error: ").concat(m.as_str()),
            MonitorError::Json(m) => String::from_str("JSON error: ").concat(m.as_str()),
        }
    }
}

} // verus!
