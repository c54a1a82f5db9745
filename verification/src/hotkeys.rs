//! The global hotkeys and the tray menu: which key combination or menu
//! entry does what.

use vstd::prelude::*;
use crate::text::same_text;

verus! {

/// What a global hotkey does.
#[derive(PartialEq, Eq, Structural, Clone, Copy, Debug)]
pub enum HotkeyAction {
    /// Show or hide the overlay.
    ToggleOverlay,
    /// Send the overlay's question.
    Submit,
    /// Screenshot the whole primary monitor.
    ScreenshotFull,
    /// Start a region screenshot.
    ScreenshotRegion,
}

/// The main keys of the global hotkeys; any other key is `Other`.
#[derive(PartialEq, Eq, Structural, Clone, Copy, Debug)]
pub enum HotkeyKey {
    Space,
    Enter,
    KeyS,
    KeyR,
    Other,
}

/// A key combination.
#[derive(PartialEq, Eq, Structural, Clone, Copy, Debug)]
pub struct Hotkey {
    pub ctrl: bool,
    pub shift: bool,
    pub alt: bool,
    pub meta: bool,
    pub key: HotkeyKey,
}

pub open spec fn ctrl_shift(key: HotkeyKey) -> Hotkey {
    Hotkey { ctrl: true, shift: true, alt: false, meta: false, key }
}

/// The global hotkeys: Ctrl+Shift+Space toggles the overlay,
/// Ctrl+Shift+Enter sends the question, Ctrl+Shift+S takes a full
/// screenshot and Ctrl+Shift+R a region one.
pub open spec fn hotkey_table() -> Seq<(Hotkey, HotkeyAction)> {
    seq![
        (ctrl_shift(HotkeyKey::Space), HotkeyAction::ToggleOverlay),
        (ctrl_shift(HotkeyKey::Enter), HotkeyAction::Submit),
        (ctrl_shift(HotkeyKey::KeyS), HotkeyAction::ScreenshotFull),
        (ctrl_shift(HotkeyKey::KeyR), HotkeyAction::ScreenshotRegion),
    ]
}

/// The hotkeys to register, with what each does.
pub fn global_hotkeys() -> (r: Vec<(Hotkey, HotkeyAction)>)
    ensures
        r@ == hotkey_table(),
{
    let mut r: Vec<(Hotkey, HotkeyAction)> = Vec::new();
    r.push((Hotkey { ctrl: true, shift: true, alt: false, meta: false, key: HotkeyKey::Space }, HotkeyAction::ToggleOverlay));
    r.push((Hotkey { ctrl: true, shift: true, alt: false, meta: false, key: HotkeyKey::Enter }, HotkeyAction::Submit));
    r.push((Hotkey { ctrl: true, shift: true, alt: false, meta: false, key: HotkeyKey::KeyS }, HotkeyAction::ScreenshotFull));
    r.push((Hotkey { ctrl: true, shift: true, alt: false, meta: false, key: HotkeyKey::KeyR }, HotkeyAction::ScreenshotRegion));
    assert(r@ =~= hotkey_table());
    r
}

/// What a hotkey event does: only a press of a registered combination
/// does anything.
pub open spec fn hotkey_response(pressed: bool, k: Hotkey) -> Option<HotkeyAction> {
    if !pressed {
        None
    } else if k == ctrl_shift(HotkeyKey::Space) {
        Some(HotkeyAction::ToggleOverlay)
    } else if k == ctrl_shift(HotkeyKey::Enter) {
        Some(HotkeyAction::Submit)
    } else if k == ctrl_shift(HotkeyKey::KeyS) {
        Some(HotkeyAction::ScreenshotFull)
    } else if k == ctrl_shift(HotkeyKey::KeyR) {
        Some(HotkeyAction::ScreenshotRegion)
    } else {
        None
    }
}

pub fn hotkey_action(pressed: bool, k: Hotkey) -> (r: Option<HotkeyAction>)
    ensures
        r == hotkey_response(pressed, k),
{
    if !pressed {
        return None;
    }
    if !(k.ctrl && k.shift && !k.alt && !k.meta) {
        return None;
    }
    match k.key {
        HotkeyKey::Space => Some(HotkeyAction::ToggleOverlay),
        HotkeyKey::Enter => Some(HotkeyAction::Submit),
        HotkeyKey::KeyS => Some(HotkeyAction::ScreenshotFull),
        HotkeyKey::KeyR => Some(HotkeyAction::ScreenshotRegion),
        HotkeyKey::Other => None,
    }
}

/// Law: every registered hotkey, pressed, does what the table says, and a
/// release does nothing.
pub proof fn law_hotkeys_dispatch_as_registered(i: int)
    requires
        0 <= i < hotkey_table().len(),
    ensures
        hotkey_response(true, hotkey_table()[i].0) == Some(hotkey_table()[i].1),
        hotkey_response(false, hotkey_table()[i].0) is None,
{
}

/// What a tray menu entry does.
#[derive(PartialEq, Eq, Structural, Clone, Copy, Debug)]
pub enum TrayAction {
    ShowMain,
    ToggleOverlay,
    Quit,
}

/// An entry of the tray menu: an item with an id and a label, or a
/// separator.
pub enum MenuEntry {
    Item { id: String, label: String },
    Separator,
}

/// The tray menu's entries as (id, label) pairs, `None` for the separator.
pub open spec fn tray_menu_spec() -> Seq<Option<(Seq<char>, Seq<char>)>> {
    seq![
        Some(("show_main"@, "Open Settings"@)),
        Some(("toggle"@, "Toggle Overlay  (Ctrl+Shift+Space)"@)),
        None,
        Some(("quit"@, "Quit"@)),
    ]
}

pub open spec fn entry_model(e: MenuEntry) -> Option<(Seq<char>, Seq<char>)> {
    match e {
        MenuEntry::Item { id, label } => Some((id@, label@)),
        MenuEntry::Separator => None,
    }
}

fn item(id: &str, label: &str) -> (e: MenuEntry)
    ensures
        entry_model(e) == Some((id@, label@)),
{
    MenuEntry::Item { id: String::from_str(id), label: String::from_str(label) }
}

/// The tray menu: Open Settings, Toggle Overlay, a separator, and Quit.
pub fn tray_menu() -> (r: Vec<MenuEntry>)
    ensures
        r.len() == tray_menu_spec().len(),
        forall|i: int| 0 <= i < r.len() ==> entry_model(#[trigger] r@[i]) == tray_menu_spec()[i],
{
    let mut r: Vec<MenuEntry> = Vec::new();
    r.push(item("show_main", "Open Settings"));
    r.push(item("toggle", "Toggle Overlay  (Ctrl+Shift+Space)"));
    r.push(MenuEntry::Separator);
    r.push(item("quit", "Quit"));
    r
}

/// What a tray menu id does.
pub open spec fn tray_response(id: Seq<char>) -> Option<TrayAction> {
    if id == "quit"@ {
        Some(TrayAction::Quit)
    } else if id == "show_main"@ {
        Some(TrayAction::ShowMain)
    } else if id == "toggle"@ {
        Some(TrayAction::ToggleOverlay)
    } else {
        None
    }
}

pub fn tray_menu_action(id: &str) -> (r: Option<TrayAction>)
    ensures
        r == tray_response(id@),
{
    if same_text(id, "quit") {
        Some(TrayAction::Quit)
    } else if same_text(id, "show_main") {
        Some(TrayAction::ShowMain)
    } else if same_text(id, "toggle") {
        Some(TrayAction::ToggleOverlay)
    } else {
        None
    }
}

/// Law: every item of the tray menu has an action, and the separator has
/// none to have.
pub proof fn law_tray_items_have_actions(i: int)
    requires
        0 <= i < tray_menu_spec().len(),
        tray_menu_spec()[i] is Some,
    ensures
        tray_response((tray_menu_spec()[i]->0).0) is Some,
{
}

/// Law: a hotkey event does something exactly when it is a press of a
/// registered combination, and then it does what that combination is
/// registered for. Every registered combination is Ctrl+Shift without Alt
/// or the Windows key: Space toggles the overlay, Enter sends the question,
/// S takes a full screenshot and R a region one.
pub proof fn law_hotkey_acts_only_when_registered(pressed: bool, k: Hotkey, a: HotkeyAction)
    ensures
        hotkey_response(pressed, k) == Some(a) <==> pressed && exists|i: int|
            0 <= i < hotkey_table().len() && #[trigger] hotkey_table()[i] == (k, a),
        hotkey_response(pressed, k) == (if pressed && k.ctrl && k.shift && !k.alt && !k.meta {
            match k.key {
                HotkeyKey::Space => Some(HotkeyAction::ToggleOverlay),
                HotkeyKey::Enter => Some(HotkeyAction::Submit),
                HotkeyKey::KeyS => Some(HotkeyAction::ScreenshotFull),
                HotkeyKey::KeyR => Some(HotkeyAction::ScreenshotRegion),
                HotkeyKey::Other => None,
            }
        } else {
            None
        }),
{
    if hotkey_response(pressed, k) == Some(a) {
        if k.key == HotkeyKey::Space {
            assert(hotkey_table()[0] == (k, a));
        } else if k.key == HotkeyKey::Enter {
            assert(hotkey_table()[1] == (k, a));
        } else if k.key == HotkeyKey::KeyS {
            assert(hotkey_table()[2] == (k, a));
        } else {
            assert(hotkey_table()[3] == (k, a));
        }
    }
}

/// Law: a tray menu id has an action exactly when it is the id of an item
/// of the tray menu: "show_main" opens the settings window, "toggle"
/// toggles the overlay and "quit" quits.
pub proof fn law_tray_acts_only_on_its_items(id: Seq<char>)
    ensures
        tray_response(id) is Some <==> exists|i: int|
            0 <= i < tray_menu_spec().len() && (#[trigger] tray_menu_spec()[i] matches Some(e)
                && e.0 == id),
        tray_response(id) == (if id == "show_main"@ {
            Some(TrayAction::ShowMain)
        } else if id == "toggle"@ {
            Some(TrayAction::ToggleOverlay)
        } else if id == "quit"@ {
            Some(TrayAction::Quit)
        } else {
            None
        }),
{
    reveal_strlit("show_main");
    reveal_strlit("toggle");
    reveal_strlit("quit");
    if tray_response(id) is Some {
        if id == "show_main"@ {
            assert(tray_menu_spec()[0] matches Some(e) && e.0 == id);
        } else if id == "toggle"@ {
            assert(tray_menu_spec()[1] matches Some(e) && e.0 == id);
        } else {
            assert(tray_menu_spec()[3] matches Some(e) && e.0 == id);
        }
    }
}

} // verus!
