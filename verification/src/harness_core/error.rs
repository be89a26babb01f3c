//! The errors of the desktop observer.

use vstd::prelude::*;

verus! {

/// What can go wrong while observing the desktop.
#[derive(Debug, Clone, PartialEq, Eq)]
pub enum HarnessError {
    /// A file operation failed; the text is the operating system's message.
    Io(String),
    /// A Windows call failed.
    Windows(String),
    /// A path given by the user is not acceptable.
    InvalidPath(String),
    /// Capturing windows or screens is not available on this platform.
    UnsupportedPlatform,
}

} // verus!
