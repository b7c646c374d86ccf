//! The minimized and maximized flags of a window, read off the states that
//! the window manager lists for it.

use vstd::prelude::*;
use crate::atom::Atom;

verus! {

/// The identifiers of the states that the flags depend on.
#[derive(Debug, Clone, Copy, PartialEq, Eq, Structural)]
pub struct StateAtoms {
    pub hidden: Atom,
    pub maximized_vert: Atom,
    pub maximized_horz: Atom,
}

/// The flags of a window.
#[derive(Debug, Clone, Copy, PartialEq, Eq, Structural)]
pub struct WindowState {
    pub is_minimized: bool,
    pub is_maximized: bool,
}

/// A window is minimized where it is listed as hidden. It is maximized where
/// it is listed as stretched both ways and is not minimized.
pub open spec fn spec_window_state(states: Seq<Atom>, atoms: StateAtoms) -> WindowState {
    let is_minimized = states.contains(atoms.hidden);
    WindowState {
        is_minimized,
        is_maximized: !is_minimized && states.contains(atoms.maximized_vert) && states.contains(
            atoms.maximized_horz,
        ),
    }
}

/// Whether `atom` is among `states`.
pub fn has_state(states: &[Atom], atom: Atom) -> (found: bool)
    ensures
        found == states@.contains(atom),
{
    let mut i: usize = 0;
    while i < states.len()
        invariant
            i <= states.len(),
            forall|k: int| 0 <= k < i ==> states@[k] != atom,
        decreases states.len() - i,
    {
        if states[i] == atom {
            return true;
        }
        i = i + 1;
    }
    false
}

/// Decodes the states listed for a window into its flags.
pub fn window_state(states: &[Atom], atoms: StateAtoms) -> (state: WindowState)
    ensures
        state == spec_window_state(states@, atoms),
        !(state.is_minimized && state.is_maximized),
{
    let is_minimized = has_state(states, atoms.hidden);
    let is_maximized_vert = has_state(states, atoms.maximized_vert);
    let is_maximized_horz = has_state(states, atoms.maximized_horz);
    WindowState {
        is_minimized,
        is_maximized: !is_minimized && is_maximized_vert && is_maximized_horz,
    }
}

/// No list of states makes a window both minimized and maximized.
pub proof fn minimized_excludes_maximized(states: Seq<Atom>, atoms: StateAtoms)
    ensures
        !(spec_window_state(states, atoms).is_minimized && spec_window_state(
            states,
            atoms,
        ).is_maximized),
{
}

} // verus!
