//! Dispatch of the shell's named menu and tray actions.
//!
//! The UI layer turns a click into the identifier of the item that was
//! clicked; which action that identifier stands for, and what the shell
//! owes for it, is decided here.  Only `quit` and the tray's `settings`
//! have an implemented effect today; the other menu actions are a closed
//! set of explicitly unimplemented commands.

use vstd::prelude::*;
use vstd::slice::slice_index_get;
use vstd::string::StringSliceAdditionalSpecFns;
use vstd::utf8::{encode_utf8, encode_utf8_decode_utf8};

verus! {

/// Byte-for-byte string comparison, which coincides with equality of the
/// character sequences because UTF-8 encoding is injective.
pub fn str_eq(a: &str, b: &str) -> (r: bool)
    ensures
        r == (a@ == b@),
{
    broadcast use encode_utf8_decode_utf8;

    let ab = a.as_bytes();
    let bb = b.as_bytes();
    if ab.len() != bb.len() {
        return false;
    }
    let n = ab.len();
    let mut i: usize = 0;
    while i < n
        invariant
            0 <= i <= n,
            ab@ == encode_utf8(a@),
            bb@ == encode_utf8(b@),
            n == ab@.len(),
            ab@.len() == bb@.len(),
            forall|j: int| 0 <= j < i ==> ab@[j] == bb@[j],
        decreases n - i,
    {
        let x = *slice_index_get(ab, i);
        let y = *slice_index_get(bb, i);
        if x != y {
            return false;
        }
        i += 1;
    }
    proof {
        assert(ab@ =~= bb@);
        encode_utf8_decode_utf8(a@);
        encode_utf8_decode_utf8(b@);
    }
    true
}

/// The closed set of actions the application menu offers.
#[derive(Debug, Clone, Copy, PartialEq, Eq, Structural)]
pub enum MenuAction {
    New,
    Open,
    Save,
    Quit,
    Cut,
    CopyItem,
    PasteItem,
    ToggleHidden,
    Refresh,
    Preferences,
}

/// The menu action a clicked item's identifier stands for, if any.
pub open spec fn menu_action(id: Seq<char>) -> Option<MenuAction> {
    if id == "new"@ {
        Some(MenuAction::New)
    } else if id == "open"@ {
        Some(MenuAction::Open)
    } else if id == "save"@ {
        Some(MenuAction::Save)
    } else if id == "quit"@ {
        Some(MenuAction::Quit)
    } else if id == "cut"@ {
        Some(MenuAction::Cut)
    } else if id == "copy"@ {
        Some(MenuAction::CopyItem)
    } else if id == "paste"@ {
        Some(MenuAction::PasteItem)
    } else if id == "toggle_hidden"@ {
        Some(MenuAction::ToggleHidden)
    } else if id == "refresh"@ {
        Some(MenuAction::Refresh)
    } else if id == "preferences"@ {
        Some(MenuAction::Preferences)
    } else {
        None
    }
}

/// Recognise a clicked menu item's identifier.
pub fn menu_action_of(id: &str) -> (a: Option<MenuAction>)
    ensures
        a == menu_action(id@),
{
    if str_eq(id, "new") {
        Some(MenuAction::New)
    } else if str_eq(id, "open") {
        Some(MenuAction::Open)
    } else if str_eq(id, "save") {
        Some(MenuAction::Save)
    } else if str_eq(id, "quit") {
        Some(MenuAction::Quit)
    } else if str_eq(id, "cut") {
        Some(MenuAction::Cut)
    } else if str_eq(id, "copy") {
        Some(MenuAction::CopyItem)
    } else if str_eq(id, "paste") {
        Some(MenuAction::PasteItem)
    } else if str_eq(id, "toggle_hidden") {
        Some(MenuAction::ToggleHidden)
    } else if str_eq(id, "refresh") {
        Some(MenuAction::Refresh)
    } else if str_eq(id, "preferences") {
        Some(MenuAction::Preferences)
    } else {
        None
    }
}

/// What the shell owes for one menu click.
#[derive(Debug, Clone, Copy, PartialEq, Eq, Structural)]
pub enum MenuDispatch {
    /// Shut the application down.
    Terminate,
    /// A known action with no implemented effect yet.
    Unimplemented(MenuAction),
    /// Not an identifier the menu hands out.
    Unrecognized,
}

/// The dispatch owed for a menu click: `quit` terminates; every other known
/// action is explicitly unimplemented.
pub open spec fn menu_dispatch(id: Seq<char>) -> MenuDispatch {
    match menu_action(id) {
        Some(MenuAction::Quit) => MenuDispatch::Terminate,
        Some(a) => MenuDispatch::Unimplemented(a),
        None => MenuDispatch::Unrecognized,
    }
}

/// Decide what the shell does for one menu click.
pub fn dispatch_menu_click(id: &str) -> (d: MenuDispatch)
    ensures
        d == menu_dispatch(id@),
{
    match menu_action_of(id) {
        Some(MenuAction::Quit) => MenuDispatch::Terminate,
        Some(a) => MenuDispatch::Unimplemented(a),
        None => MenuDispatch::Unrecognized,
    }
}

/// What the shell owes for one click on a tray menu item.
#[derive(Debug, Clone, Copy, PartialEq, Eq, Structural)]
pub enum TrayDispatch {
    /// Shut the application down.
    Terminate,
    /// Ask the main window to open its settings view.
    EmitSettings,
    /// Not an identifier the tray menu hands out.
    Unrecognized,
}

/// The dispatch owed for a tray click: `settings` asks the main window to
/// open its settings view, `quit` terminates.
pub open spec fn tray_dispatch(id: Seq<char>) -> TrayDispatch {
    if id == "settings"@ {
        TrayDispatch::EmitSettings
    } else if id == "quit"@ {
        TrayDispatch::Terminate
    } else {
        TrayDispatch::Unrecognized
    }
}

/// Decide what the shell does for one tray click.
pub fn dispatch_tray_click(id: &str) -> (d: TrayDispatch)
    ensures
        d == tray_dispatch(id@),
{
    if str_eq(id, "settings") {
        TrayDispatch::EmitSettings
    } else if str_eq(id, "quit") {
        TrayDispatch::Terminate
    } else {
        TrayDispatch::Unrecognized
    }
}

} // verus!
