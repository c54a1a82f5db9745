use writingagent::keys::{
    check_sent, clickable_ex_style, hook_decision, inputs_for_char_exec, inputs_for_vk, is_key_down, kbd_event,
    key_text, set_capture_active, should_borrow_focus, stealth_ex_style, utf16_units, HookDecision, KbdHookState,
    KeyInput, VK_BACK, VK_RETURN, VK_TAB,
};

const WM_KEYDOWN: u32 = 0x0100;
const WM_KEYUP: u32 = 0x0101;
const WM_SYSKEYDOWN: u32 = 0x0104;

fn capturing() -> KbdHookState {
    let mut h = KbdHookState::new();
    set_capture_active(&mut h, true);
    h
}

#[test]
fn capture_flag_toggles() {
    let mut h = KbdHookState::new();
    assert!(!h.capture_active());
    set_capture_active(&mut h, true);
    assert!(h.capture_active());
    set_capture_active(&mut h, false);
    assert!(!h.capture_active());
}

#[test]
fn nothing_is_captured_while_off() {
    let h = KbdHookState::new();
    assert_eq!(hook_decision(0, &h, WM_KEYDOWN, 0x41, 0), HookDecision::PassThrough);
}

#[test]
fn letters_are_captured_on_key_down() {
    let h = capturing();
    assert_eq!(hook_decision(0, &h, WM_KEYDOWN, 0x41, 0), HookDecision::Capture);
    assert_eq!(hook_decision(0, &h, WM_SYSKEYDOWN, 0x41, 0x20), HookDecision::Capture);
    assert_eq!(hook_decision(0, &h, WM_KEYUP, 0x41, 0), HookDecision::PassThrough);
    assert_eq!(hook_decision(3, &h, WM_KEYDOWN, 0x41, 0), HookDecision::PassThrough);
}

#[test]
fn reserved_keys_pass_through() {
    let h = capturing();
    // Alt+Tab and Alt+F4
    assert_eq!(hook_decision(0, &h, WM_SYSKEYDOWN, 0x09, 0x20), HookDecision::PassThrough);
    assert_eq!(hook_decision(0, &h, WM_SYSKEYDOWN, 0x73, 0x20), HookDecision::PassThrough);
    // Tab and F4 without Alt are captured
    assert_eq!(hook_decision(0, &h, WM_KEYDOWN, 0x09, 0), HookDecision::Capture);
    assert_eq!(hook_decision(0, &h, WM_KEYDOWN, 0x73, 0), HookDecision::Capture);
    // Windows keys and lone modifiers
    for vk in [0x5B, 0x5C, 0x10, 0x11, 0x12] {
        assert_eq!(hook_decision(0, &h, WM_KEYDOWN, vk, 0), HookDecision::PassThrough);
    }
}

#[test]
fn key_state_high_bit() {
    assert!(is_key_down(-32768));
    assert!(is_key_down(-127));
    assert!(!is_key_down(1));
    assert!(!is_key_down(0));
}

#[test]
fn event_carries_modifiers() {
    let e = kbd_event(0x41, 30, -32767, 0, 0x20, Some("A".to_string()));
    assert_eq!((e.vk, e.scan, e.shift, e.ctrl, e.alt), (0x41, 30, true, false, true));
    assert_eq!(e.text.as_deref(), Some("A"));
}

#[test]
fn key_text_filters_control_characters() {
    let buf: Vec<u16> = vec![0x61, 0, 0, 0, 0, 0, 0, 0];
    assert_eq!(key_text(&buf, 1).as_deref(), Some("a"));
    assert_eq!(key_text(&vec![0x0D, 0, 0, 0], 1), None);
    assert_eq!(key_text(&vec![0x08, 0x7F], 2), None);
    assert_eq!(key_text(&buf, 0), None);
    assert_eq!(key_text(&buf, -1), None);
    assert_eq!(key_text(&vec![0x0D, 0x62], 2).as_deref(), Some("\rb"));
}

#[test]
fn key_text_decodes_utf16() {
    assert_eq!(key_text(&vec![0xD83D, 0xDE00], 2).as_deref(), Some("\u{1F600}"));
    assert_eq!(key_text(&vec![0xD83D, 0x41], 2).as_deref(), Some("\u{FFFD}A"));
    assert_eq!(key_text(&vec![0xDE00], 1).as_deref(), Some("\u{FFFD}"));
    let units = vec![0x48u16, 0xD83D, 0xDE00, 0xDC00];
    assert_eq!(
        key_text(&units, 4),
        Some(String::from_utf16_lossy(&units))
    );
}

#[test]
fn line_break_and_tab_are_virtual_keys() {
    let down_up = |vk| vec![KeyInput::Virtual { vk, up: false }, KeyInput::Virtual { vk, up: true }];
    assert_eq!(inputs_for_char_exec('\n'), down_up(VK_RETURN));
    assert_eq!(inputs_for_char_exec('\r'), down_up(VK_RETURN));
    assert_eq!(inputs_for_char_exec('\t'), down_up(VK_TAB));
    assert_eq!(inputs_for_vk(VK_BACK), down_up(0x08));
}

#[test]
fn other_chars_are_unicode_units() {
    assert_eq!(
        inputs_for_char_exec('\u{e9}'),
        vec![KeyInput::Unicode { unit: 0xE9, up: false }, KeyInput::Unicode { unit: 0xE9, up: true }]
    );
    assert_eq!(
        inputs_for_char_exec('\u{1F600}'),
        vec![
            KeyInput::Unicode { unit: 0xD83D, up: false },
            KeyInput::Unicode { unit: 0xD83D, up: true },
            KeyInput::Unicode { unit: 0xDE00, up: false },
            KeyInput::Unicode { unit: 0xDE00, up: true },
        ]
    );
}

#[test]
fn utf16_units_round_trip() {
    for c in ['a', '\u{e9}', '\u{ffff}', '\u{10000}', '\u{1F600}', '\u{10FFFF}'] {
        let units = utf16_units(c);
        let mut buf = [0u16; 2];
        assert_eq!(units, c.encode_utf16(&mut buf).to_vec());
        assert_eq!(String::from_utf16_lossy(&units), c.to_string());
    }
}

#[test]
fn sent_count_is_checked() {
    assert!(check_sent(4, 4).is_ok());
    match check_sent(3, 4) {
        Err(e) => assert_eq!(e.message(), "SendInput returned 3, expected 4"),
        Ok(()) => panic!("expected an error"),
    }
}

#[test]
fn focus_is_borrowed_only_from_another_thread() {
    assert!(should_borrow_focus(100, 200, 7, 8));
    assert!(!should_borrow_focus(0, 200, 7, 8));
    assert!(!should_borrow_focus(200, 200, 7, 8));
    assert!(!should_borrow_focus(100, 200, 0, 8));
    assert!(!should_borrow_focus(100, 200, 8, 8));
}

#[test]
fn stealth_style_adds_tool_window_and_no_activate() {
    assert_eq!(stealth_ex_style(0), 0x0800_0080);
    assert_eq!(stealth_ex_style(0x0000_0008), 0x0800_0088);
}

#[test]
fn clickable_style_toggles_only_transparency() {
    assert_eq!(clickable_ex_style(0x0800_0080, false), Some(0x0800_00A0));
    assert_eq!(clickable_ex_style(0x0800_00A0, true), Some(0x0800_0080));
    assert_eq!(clickable_ex_style(0x0800_0080, true), None);
    assert_eq!(clickable_ex_style(0x0800_00A0, false), None);
}
