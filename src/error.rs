use vstd::prelude::*;

verus! {

/// Every failure of a run; each one ends the run.
#[derive(Debug, Clone)]
pub enum Error {
    /// The feed could not be reached.
    Transport(String),
    /// The feed answered with a body that is not the expected envelope.
    Decode(String),
    /// A post's creation time does not follow the feed's layout; holds that text.
    TimestampParse(String),
    /// The feed answered with a page that holds no post; holds the page index.
    EmptyPage(u64),
    /// The browser could not be started or could not open a tab.
    Browser(String),
    /// The browser could not open a post's page.
    Navigation(String),
    /// The browser could not take a screenshot.
    Capture(String),
    /// A screenshot could not be written to disk.
    Persist(String),
    /// The spreadsheet could not be written.
    Report(String),
    /// The run's settings are missing or malformed.
    Config(String),
}

} // verus!
