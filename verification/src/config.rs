//! The static configuration: border thickness and colors, workspace count,
//! and the keybind table.  Built once before the event loop starts and read,
//! never mutated, afterwards.

use vstd::prelude::*;

use crate::keybind::{Action, Keybind, KeyModifiers, MOD_SHIFT, MOD_SUPER};

verus! {

pub const KEY_H: u32 = 0x68;

pub const KEY_L: u32 = 0x6c;

pub const KEY_P: u32 = 0x70;

pub const KEY_Q: u32 = 0x71;

pub const KEY_RETURN: u32 = 0xff0d;

pub struct Config {
    pub border_thickness: u8,
    pub border_color_focused: u32,
    pub border_color_unfocused: u32,
    pub workspace_count: usize,
    pub keybinds: Vec<(Keybind, Action)>,
}

impl Config {
    /// No two entries of the keybind table share a keybind, so a lookup's
    /// result is determined by the bind alone.
    pub open spec fn wf(self) -> bool {
        forall|i: int, j: int|
            0 <= i < j < self.keybinds@.len() ==> self.keybinds@[i].0 != self.keybinds@[j].0
    }

    /// The default configuration: a two-pixel border, green when focused
    /// and red when not, and the built-in shortcut table.
    pub fn new() -> (c: Config)
        ensures
            c.wf(),
            c.border_thickness == 2,
            c.border_color_focused == 0x00ff00u32,
            c.border_color_unfocused == 0xff0000u32,
            c.workspace_count == 9,
            c.keybinds@.len() == 5,
            c.keybinds@[0].0 == (Keybind {
                modifiers: KeyModifiers { bits: MOD_SUPER | MOD_SHIFT },
                key: KEY_Q,
            }),
            c.keybinds@[0].1 == Action::Quit,
            c.keybinds@[1].0 == (Keybind { modifiers: KeyModifiers { bits: MOD_SUPER }, key: KEY_L }),
            c.keybinds@[1].1 == Action::NextWorkspace,
            c.keybinds@[2].0 == (Keybind { modifiers: KeyModifiers { bits: MOD_SUPER }, key: KEY_H }),
            c.keybinds@[2].1 == Action::PrevWorkspace,
            c.keybinds@[3].0 == (Keybind {
                modifiers: KeyModifiers { bits: MOD_SUPER | MOD_SHIFT },
                key: KEY_RETURN,
            }),
            c.keybinds@[3].1 matches Action::Spawn(cmd) && cmd@ == "alacritty"@,
            c.keybinds@[4].0 == (Keybind { modifiers: KeyModifiers { bits: MOD_SUPER }, key: KEY_P }),
            c.keybinds@[4].1 matches Action::Spawn(cmd) && cmd@ == "bemenu_run"@,
    {
        let mut keybinds: Vec<(Keybind, Action)> = Vec::new();
        keybinds.push(
            (Keybind::new(KeyModifiers { bits: MOD_SUPER | MOD_SHIFT }, KEY_Q), Action::Quit),
        );
        keybinds.push(
            (Keybind::new(KeyModifiers { bits: MOD_SUPER }, KEY_L), Action::NextWorkspace),
        );
        keybinds.push(
            (Keybind::new(KeyModifiers { bits: MOD_SUPER }, KEY_H), Action::PrevWorkspace),
        );
        keybinds.push(
            (
                Keybind::new(KeyModifiers { bits: MOD_SUPER | MOD_SHIFT }, KEY_RETURN),
                Action::Spawn("alacritty".to_owned()),
            ),
        );
        keybinds.push(
            (
                Keybind::new(KeyModifiers { bits: MOD_SUPER }, KEY_P),
                Action::Spawn("bemenu_run".to_owned()),
            ),
        );
        Config {
            border_thickness: 2,
            border_color_focused: 0x00ff00,
            border_color_unfocused: 0xff0000,
            workspace_count: 9,
            keybinds,
        }
    }
}

} // verus!
