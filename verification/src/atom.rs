//! The names that the window system is asked to resolve, and the reading of
//! its answer.

use vstd::prelude::*;
use crate::error::WindowError;

verus! {

/// The identifier that the window system hands out for a name.
pub type Atom = u32;

/// The identifier that stands for "no such name".
pub const ATOM_NONE: Atom = 0;

/// The property and state names that describing a window depends on.
#[derive(Debug, Clone, Copy, PartialEq, Eq, Structural)]
pub enum AtomName {
    /// The property that lists a root's windows from bottom to top.
    NetClientListStacking,
    /// The property that holds the focused window of a root.
    NetActiveWindow,
    /// The property that holds the process id of a window's owner.
    NetWmPid,
    /// The property that holds the states of a window.
    NetWmState,
    /// The state of a window that is not shown.
    NetWmStateHidden,
    /// The state of a window stretched over the height of its screen.
    NetWmStateMaximizedVert,
    /// The state of a window stretched over the width of its screen.
    NetWmStateMaximizedHorz,
}

impl AtomName {
    /// The name as the window system spells it.
    pub open spec fn spec_name(self) -> Seq<char> {
        match self {
            AtomName::NetClientListStacking => "_NET_CLIENT_LIST_STACKING"@,
            AtomName::NetActiveWindow => "_NET_ACTIVE_WINDOW"@,
            AtomName::NetWmPid => "_NET_WM_PID"@,
            AtomName::NetWmState => "_NET_WM_STATE"@,
            AtomName::NetWmStateHidden => "_NET_WM_STATE_HIDDEN"@,
            AtomName::NetWmStateMaximizedVert => "_NET_WM_STATE_MAXIMIZED_VERT"@,
            AtomName::NetWmStateMaximizedHorz => "_NET_WM_STATE_MAXIMIZED_HORZ"@,
        }
    }

    /// The name to send when asking the window system for its identifier.
    pub fn name(&self) -> (s: &'static str)
        ensures
            s@ == self.spec_name(),
    {
        match self {
            AtomName::NetClientListStacking => "_NET_CLIENT_LIST_STACKING",
            AtomName::NetActiveWindow => "_NET_ACTIVE_WINDOW",
            AtomName::NetWmPid => "_NET_WM_PID",
            AtomName::NetWmState => "_NET_WM_STATE",
            AtomName::NetWmStateHidden => "_NET_WM_STATE_HIDDEN",
            AtomName::NetWmStateMaximizedVert => "_NET_WM_STATE_MAXIMIZED_VERT",
            AtomName::NetWmStateMaximizedHorz => "_NET_WM_STATE_MAXIMIZED_HORZ",
        }
    }
}

/// What a lookup of `name` amounts to, given the window system's reply:
/// `None` for a failed round trip, otherwise the identifier it reported for
/// an existing name, or [`ATOM_NONE`].
pub open spec fn spec_get_atom(name: AtomName, reply: Option<Atom>) -> Result<Atom, WindowError> {
    match reply {
        None => Err(WindowError::ConnectionError),
        Some(atom) => if atom == ATOM_NONE {
            Err(WindowError::UnsupportedAtom(name))
        } else {
            Ok(atom)
        },
    }
}

/// Reads the reply to a lookup of `name` that creates no identifier: a name
/// that the window manager does not know is an error of its own, so that the
/// caller can do without the feature.
pub fn get_atom(name: AtomName, reply: Option<Atom>) -> (r: Result<Atom, WindowError>)
    ensures
        r == spec_get_atom(name, reply),
{
    match reply {
        None => Err(WindowError::ConnectionError),
        Some(atom) => if atom == ATOM_NONE {
            Err(WindowError::UnsupportedAtom(name))
        } else {
            Ok(atom)
        },
    }
}

} // verus!
