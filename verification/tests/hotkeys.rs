use writingagent::hotkeys::{
    global_hotkeys, hotkey_action, tray_menu, tray_menu_action, Hotkey, HotkeyAction, HotkeyKey,
    MenuEntry, TrayAction,
};

fn ctrl_shift(key: HotkeyKey) -> Hotkey {
    Hotkey { ctrl: true, shift: true, alt: false, meta: false, key }
}

#[test]
fn documented_global_hotkeys() {
    let table = global_hotkeys();
    assert_eq!(
        table,
        vec![
            (ctrl_shift(HotkeyKey::Space), HotkeyAction::ToggleOverlay),
            (ctrl_shift(HotkeyKey::Enter), HotkeyAction::Submit),
            (ctrl_shift(HotkeyKey::KeyS), HotkeyAction::ScreenshotFull),
            (ctrl_shift(HotkeyKey::KeyR), HotkeyAction::ScreenshotRegion),
        ]
    );
}

#[test]
fn registered_hotkeys_dispatch_on_press_only() {
    for (k, action) in global_hotkeys() {
        assert_eq!(hotkey_action(true, k), Some(action));
        assert_eq!(hotkey_action(false, k), None);
    }
}

#[test]
fn other_combinations_do_nothing() {
    assert_eq!(hotkey_action(true, Hotkey { alt: true, ..ctrl_shift(HotkeyKey::Space) }), None);
    assert_eq!(hotkey_action(true, Hotkey { shift: false, ..ctrl_shift(HotkeyKey::Space) }), None);
    assert_eq!(hotkey_action(true, ctrl_shift(HotkeyKey::Other)), None);
}

#[test]
fn tray_menu_entries_and_actions() {
    let menu = tray_menu();
    assert_eq!(menu.len(), 4);
    let mut ids = Vec::new();
    for e in &menu {
        match e {
            MenuEntry::Item { id, label } => {
                assert!(!label.is_empty());
                assert!(tray_menu_action(id).is_some());
                ids.push(id.clone());
            }
            MenuEntry::Separator => ids.push(String::from("-")),
        }
    }
    assert_eq!(ids, vec!["show_main", "toggle", "-", "quit"]);
    match &menu[1] {
        MenuEntry::Item { label, .. } => assert_eq!(label, "Toggle Overlay  (Ctrl+Shift+Space)"),
        _ => panic!(),
    }
    assert_eq!(tray_menu_action("quit"), Some(TrayAction::Quit));
    assert_eq!(tray_menu_action("show_main"), Some(TrayAction::ShowMain));
    assert_eq!(tray_menu_action("toggle"), Some(TrayAction::ToggleOverlay));
    assert_eq!(tray_menu_action("other"), None);
}
