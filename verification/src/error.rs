//! The ways in which describing a window can fail.

use vstd::prelude::*;
use crate::atom::AtomName;

verus! {

/// Why a window, or a whole enumeration, could not be described.
#[derive(Debug, Clone, Copy, PartialEq, Eq, Structural)]
pub enum WindowError {
    /// A round trip to the window system failed.
    ConnectionError,
    /// The window manager knows no identifier for the name.
    UnsupportedAtom(AtomName),
    /// A text property held bytes that are not valid UTF-8.
    TextDecodeError,
    /// No monitor was supplied to assign the window to.
    NoMonitors,
    /// The window carries no process id.
    PidResolutionError,
}

} // verus!
