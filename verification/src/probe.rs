//! Failure taxonomy of the accessibility probe.
//!
//! A caption query walks four steps: find the target window, resolve it to
//! a root accessibility element, search the subtree for the caption text
//! block, and read its text property. Each step can fail transiently; the
//! binary maps the operating-system error of the failing step to the
//! matching variant here and hands it to the engine, which skips that
//! cycle's persist and carries on.

use vstd::prelude::*;

verus! {

/// A transient failure of one caption query. Never fatal: the next
/// scheduled tick retries naturally.
#[derive(Clone, Copy, Debug, PartialEq, Eq, Structural)]
pub enum ProbeError {
    /// The target application's window does not exist right now.
    WindowNotFound,
    /// The window could not be resolved to a root accessibility element.
    ElementResolutionFailed,
    /// No descendant element matched the caption text block's identifier.
    ElementNotFound,
    /// The matched element's text property could not be read.
    TextReadFailed,
}

/// The diagnostic line that belongs to each probe failure.
pub open spec fn describe_spec(e: ProbeError) -> Seq<char> {
    match e {
        ProbeError::WindowNotFound => "target window not found"@,
        ProbeError::ElementResolutionFailed => "window could not be resolved to an element"@,
        ProbeError::ElementNotFound => "caption text block not found"@,
        ProbeError::TextReadFailed => "caption text could not be read"@,
    }
}

impl ProbeError {
    /// Short diagnostic text for the log line of a skipped cycle.
    pub fn describe(&self) -> (r: String)
        ensures
            r@ == describe_spec(*self),
    {
        match self {
            ProbeError::WindowNotFound => "target window not found".to_owned(),
            ProbeError::ElementResolutionFailed => {
                "window could not be resolved to an element".to_owned()
            },
            ProbeError::ElementNotFound => "caption text block not found".to_owned(),
            ProbeError::TextReadFailed => "caption text could not be read".to_owned(),
        }
    }
}

} // verus!
