//! Keyboard shortcuts: modifier bitmasks, keysyms and the actions bound to
//! them.

use vstd::prelude::*;

verus! {

pub const MOD_NONE: u32 = 0;

pub const MOD_CTRL: u32 = 1;

pub const MOD_ALT: u32 = 2;

pub const MOD_SHIFT: u32 = 4;

pub const MOD_SUPER: u32 = 8;

/// A bitmask of held modifier keys.
#[derive(Clone, Copy, Debug, PartialEq, Eq, Structural, Hash)]
pub struct KeyModifiers {
    pub bits: u32,
}

impl KeyModifiers {
    /// The bitmask matching a set of modifier flags as a keyboard reports
    /// them (`logo` is the Super key).
    pub fn from_flags(ctrl: bool, alt: bool, shift: bool, logo: bool) -> (r: KeyModifiers)
        ensures
            r.bits == (if ctrl {
                MOD_CTRL as int
            } else {
                0
            }) + (if alt {
                MOD_ALT as int
            } else {
                0
            }) + (if shift {
                MOD_SHIFT as int
            } else {
                0
            }) + (if logo {
                MOD_SUPER as int
            } else {
                0
            }),
    {
        let mut bits: u32 = MOD_NONE;
        if ctrl {
            bits = bits + MOD_CTRL;
        }
        if alt {
            bits = bits + MOD_ALT;
        }
        if shift {
            bits = bits + MOD_SHIFT;
        }
        if logo {
            bits = bits + MOD_SUPER;
        }
        KeyModifiers { bits }
    }
}

/// A (modifier bitmask, keysym) pair that identifies a shortcut.
#[derive(Clone, Copy, Debug, PartialEq, Eq, Structural, Hash)]
pub struct Keybind {
    pub modifiers: KeyModifiers,
    pub key: u32,
}

impl Keybind {
    pub fn new(modifiers: KeyModifiers, key: u32) -> (r: Keybind)
        ensures
            r.modifiers == modifiers,
            r.key == key,
    {
        Keybind { modifiers, key }
    }
}

/// A compositor-level command a shortcut can be bound to.
#[derive(Debug, PartialEq, Eq)]
pub enum Action {
    Quit,
    NextWorkspace,
    PrevWorkspace,
    Spawn(String),
    MoveWindowToPrevWorkspace,
    MoveWindowToNextWorkspace,
    MoveWindowFloating,
    ResizeWindowFloating,
    MoveWindowBack,
    MoveWindowNext,
    RemoveWindow,
}

impl Clone for Action {
    fn clone(&self) -> (r: Action)
        ensures
            r == *self,
    {
        match self {
            Action::Quit => Action::Quit,
            Action::NextWorkspace => Action::NextWorkspace,
            Action::PrevWorkspace => Action::PrevWorkspace,
            Action::Spawn(command) => Action::Spawn(command.clone()),
            Action::MoveWindowToPrevWorkspace => Action::MoveWindowToPrevWorkspace,
            Action::MoveWindowToNextWorkspace => Action::MoveWindowToNextWorkspace,
            Action::MoveWindowFloating => Action::MoveWindowFloating,
            Action::ResizeWindowFloating => Action::ResizeWindowFloating,
            Action::MoveWindowBack => Action::MoveWindowBack,
            Action::MoveWindowNext => Action::MoveWindowNext,
            Action::RemoveWindow => Action::RemoveWindow,
        }
    }
}

/// Whether some entry of the table binds `bind`.
pub open spec fn table_has_bind(table: Seq<(Keybind, Action)>, bind: Keybind) -> bool {
    exists|i: int| 0 <= i < table.len() && table[i].0 == bind
}

/// The action bound to `bind` in the table, if any.
///
/// Returns `Some` exactly when some entry's keybind equals `bind`, and the
/// returned action is that entry's action (the first matching entry; with
/// unique keybinds, the only one).
pub fn lookup_action(table: &Vec<(Keybind, Action)>, bind: Keybind) -> (r: Option<Action>)
    ensures
        r is Some <==> table_has_bind(table@, bind),
        r matches Some(a) ==> exists|i: int|
            0 <= i < table@.len() && table@[i].0 == bind && table@[i].1 == a,
{
    let mut idx: usize = 0;
    while idx < table.len()
        invariant
            0 <= idx <= table@.len(),
            forall|j: int| 0 <= j < idx ==> table@[j].0 != bind,
        decreases table@.len() - idx,
    {
        if table[idx].0 == bind {
            return Some(table[idx].1.clone());
        }
        idx = idx + 1;
    }
    None
}

} // verus!
