//! Keyboard decisions: which keystrokes the overlay's keyboard hook takes
//! over, what it reports for them, the key events that type a character,
//! and when the overlay may take keyboard focus.
//!
//! Key codes are the Win32 virtual-key and message numbers.

use vstd::prelude::*;
use crate::typing::TypingError;

verus! {

/// `HC_ACTION`: the hook code of a keystroke the hook may act on.
pub const HC_ACTION: i32 = 0;
/// `WM_KEYDOWN`.
pub const WM_KEYDOWN: u32 = 0x0100;
/// `WM_SYSKEYDOWN`.
pub const WM_SYSKEYDOWN: u32 = 0x0104;
/// `VK_BACK`.
pub const VK_BACK: u16 = 0x08;
/// `VK_TAB`.
pub const VK_TAB: u16 = 0x09;
/// `VK_RETURN`.
pub const VK_RETURN: u16 = 0x0D;
/// `VK_SHIFT`.
pub const VK_SHIFT: u32 = 0x10;
/// `VK_CONTROL`.
pub const VK_CONTROL: u32 = 0x11;
/// `VK_MENU` (Alt).
pub const VK_MENU: u32 = 0x12;
/// `VK_F4`.
pub const VK_F4: u32 = 0x73;
/// `VK_LWIN`.
pub const VK_LWIN: u32 = 0x5B;
/// `VK_RWIN`.
pub const VK_RWIN: u32 = 0x5C;
/// `LLKHF_ALTDOWN`: the low-level hook flag for a held Alt key.
pub const LLKHF_ALTDOWN: u32 = 0x20;

/// A keystroke forwarded to the overlay while it captures the keyboard.
pub struct KbdEvent {
    pub vk: u32,
    pub scan: u32,
    pub shift: bool,
    pub ctrl: bool,
    pub alt: bool,
    pub text: Option<String>,
}

/// Whether the hook is forwarding keystrokes to the overlay.
pub struct KbdHookState {
    capture_active: bool,
}

impl KbdHookState {
    pub closed spec fn active(self) -> bool {
        self.capture_active
    }

    /// Not capturing.
    pub fn new() -> (r: KbdHookState)
        ensures
            !r.active(),
    {
        KbdHookState { capture_active: false }
    }

    pub fn capture_active(&self) -> (r: bool)
        ensures
            r == self.active(),
    {
        self.capture_active
    }
}

/// Turns keyboard capture on or off.
pub fn set_capture_active(hook: &mut KbdHookState, active: bool)
    ensures
        final(hook).active() == active,
{
    hook.capture_active = active;
}

/// What the hook does with a keystroke.
#[derive(PartialEq, Eq, Structural, Clone, Copy, Debug)]
pub enum HookDecision {
    /// Hand it on to the next hook and the foreground application.
    PassThrough,
    /// Forward it to the overlay and swallow it.
    Capture,
}

/// Keystrokes that always reach the foreground application, so that the
/// user can still switch and close windows: Alt+Tab, Alt+F4, the Windows
/// keys, and Shift, Ctrl and Alt on their own.
pub open spec fn is_reserved_key(vk: u32, alt: bool) -> bool {
    ||| alt && (vk == VK_TAB as u32 || vk == VK_F4)
    ||| vk == VK_LWIN || vk == VK_RWIN
    ||| vk == VK_SHIFT || vk == VK_CONTROL || vk == VK_MENU
}

/// The hook's policy: while capture is on, a key-down that is not reserved
/// is taken over; everything else passes through.
pub open spec fn hook_policy(code: i32, capture_active: bool, message: u32, vk: u32, flags: u32) -> HookDecision {
    if code == HC_ACTION && capture_active && (message == WM_KEYDOWN || message == WM_SYSKEYDOWN)
        && !is_reserved_key(vk, alt_held(flags)) {
        HookDecision::Capture
    } else {
        HookDecision::PassThrough
    }
}

/// Whether the low-level hook flags say Alt is held.
pub open spec fn alt_held(flags: u32) -> bool {
    flags & LLKHF_ALTDOWN != 0
}

/// Decides what the keyboard hook does with a keystroke: `code` is the
/// hook code, `message` the keyboard message, `vk` the virtual key and
/// `flags` the low-level flags.
pub fn hook_decision(code: i32, hook: &KbdHookState, message: u32, vk: u32, flags: u32) -> (r:
    HookDecision)
    ensures
        r == hook_policy(code, hook.active(), message, vk, flags),
{
    if code != HC_ACTION || !hook.capture_active {
        return HookDecision::PassThrough;
    }
    if !(message == WM_KEYDOWN || message == WM_SYSKEYDOWN) {
        return HookDecision::PassThrough;
    }
    let alt = (flags & LLKHF_ALTDOWN) != 0;
    if alt && (vk == VK_TAB as u32 || vk == VK_F4) {
        return HookDecision::PassThrough;
    }
    if vk == VK_LWIN || vk == VK_RWIN {
        return HookDecision::PassThrough;
    }
    if vk == VK_SHIFT || vk == VK_CONTROL || vk == VK_MENU {
        return HookDecision::PassThrough;
    }
    HookDecision::Capture
}

/// Whether a `GetKeyState` result says the key is down (its high bit).
pub open spec fn key_down(state: i16) -> bool {
    state < 0
}

pub fn is_key_down(state: i16) -> (r: bool)
    ensures
        r == key_down(state),
        r == ((state as u16) & 0x8000u16 != 0),
{
    let r = ((state as u16) & 0x8000u16) != 0;
    assert(r == (state < 0)) by (bit_vector)
        requires
            r == ((state as u16) & 0x8000u16 != 0),
    ;
    r
}

/// The Unicode control characters (general category Cc).
pub open spec fn is_control(c: char) -> bool {
    c <= '\u{1F}' || ('\u{7F}' <= c && c <= '\u{9F}')
}

pub open spec fn is_high_surrogate(u: u16) -> bool {
    0xD800 <= u <= 0xDBFF
}

pub open spec fn is_low_surrogate(u: u16) -> bool {
    0xDC00 <= u <= 0xDFFF
}

/// UTF-16 decoding that puts U+FFFD in place of each unpaired surrogate,
/// as `String::from_utf16_lossy` does.
pub open spec fn decode_utf16_lossy(u: Seq<u16>) -> Seq<char>
    decreases u.len(),
{
    if u.len() == 0 {
        Seq::empty()
    } else if !is_high_surrogate(u[0]) && !is_low_surrogate(u[0]) {
        seq![(u[0] as u32) as char] + decode_utf16_lossy(u.drop_first())
    } else if is_high_surrogate(u[0]) && u.len() >= 2 && is_low_surrogate(u[1]) {
        seq![
            (0x10000 + ((u[0] as u32) - 0xD800) * 0x400 + ((u[1] as u32) - 0xDC00)) as char,
        ] + decode_utf16_lossy(u.skip(2))
    } else {
        seq!['\u{FFFD}'] + decode_utf16_lossy(u.drop_first())
    }
}

/// The text a key produced, when it produced some that is not only
/// control characters. `n` is what `ToUnicodeEx` returned: the number of
/// UTF-16 units it wrote into `buf` (none when it is not positive).
pub open spec fn key_text_of(buf: Seq<u16>, n: i32) -> Option<Seq<char>> {
    if n > 0 {
        let s = decode_utf16_lossy(buf.take(n as int));
        if forall|i: int| 0 <= i < s.len() ==> is_control(#[trigger] s[i]) {
            None
        } else {
            Some(s)
        }
    } else {
        None
    }
}

fn decode_utf16_lossy_into(u: &Vec<u16>, n: usize, out: &mut String)
    requires
        n <= u.len(),
    ensures
        final(out)@ == old(out)@ + decode_utf16_lossy(u@.take(n as int)),
{
    let mut i: usize = 0;
    assert(u@.take(n as int).skip(0) =~= u@.take(n as int));
    assert(old(out)@ + decode_utf16_lossy(u@.take(n as int)) == out@ + decode_utf16_lossy(u@.take(n as int).skip(0)));
    while i < n
        invariant
            i <= n <= u.len(),
            out@ + decode_utf16_lossy(u@.take(n as int).skip(i as int)) == old(out)@
                + decode_utf16_lossy(u@.take(n as int)),
        decreases n - i,
    {
        let ghost rest = u@.take(n as int).skip(i as int);
        let a = u[i];
        assert(rest[0] == a);
        if a < 0xD800 || a > 0xDFFF {
            assert(rest.drop_first() =~= u@.take(n as int).skip(i + 1));
            let c = char_of(a as u32);
            crate::text::push_char(out, c);
            i = i + 1;
        } else if a <= 0xDBFF && i + 1 < n && u[i + 1] >= 0xDC00 && u[i + 1] <= 0xDFFF {
            let b = u[i + 1];
            assert(rest[1] == b);
            assert(rest.skip(2) =~= u@.take(n as int).skip(i + 2));
            let v: u32 = 0x10000 + ((a as u32) - 0xD800) * 0x400 + ((b as u32) - 0xDC00);
            let c = char_of(v);
            crate::text::push_char(out, c);
            i = i + 2;
        } else {
            assert(rest.drop_first() =~= u@.take(n as int).skip(i + 1));
            crate::text::push_char(out, '\u{FFFD}');
            i = i + 1;
        }
    }
    assert(u@.take(n as int).skip(n as int) =~= Seq::<u16>::empty());
}

/// `char::from_u32`: the character with code point `v`, when `v` is a
/// Unicode scalar value (below U+D800, or U+E000 to U+10FFFF).
#[verifier::external_body]
fn char_from_u32(v: u32) -> (r: Option<char>)
    ensures
        (v < 0xD800 || (0xE000 <= v <= 0x10FFFF)) ==> r == Some(v as char),
        !(v < 0xD800 || (0xE000 <= v <= 0x10FFFF)) ==> r is None,
{
    char::from_u32(v)
}

/// The character with a code point that is known to be a scalar value.
fn char_of(v: u32) -> (c: char)
    requires
        v < 0xD800 || (0xE000 <= v <= 0x10FFFF),
    ensures
        c == v as char,
{
    let r = char_from_u32(v);
    match r {
        Some(c) => c,
        None => '\u{FFFD}',
    }
}

/// The text for a keystroke from `ToUnicodeEx`'s output.
pub fn key_text(buf: &Vec<u16>, n: i32) -> (r: Option<String>)
    requires
        n <= buf.len(),
    ensures
        r.deep_view() == key_text_of(buf@, n),
{
    if n <= 0 {
        return None;
    }
    let m = n as usize;
    assert(m as int == n as int);
    let mut s = String::new();
    decode_utf16_lossy_into(buf, m, &mut s);
    assert(s@ =~= decode_utf16_lossy(buf@.take(n as int)));
    let v = crate::text::chars_of(s.as_str());
    let mut i: usize = 0;
    while i < v.len()
        invariant
            v@ == s@,
            0 < n,
            n as int <= buf@.len(),
            s@ == decode_utf16_lossy(buf@.take(n as int)),
            i <= v.len(),
            forall|j: int| 0 <= j < i ==> is_control(#[trigger] v@[j]),
        decreases v.len() - i,
    {
        let c = v[i];
        if !(c <= '\u{1F}' || ('\u{7F}' <= c && c <= '\u{9F}')) {
            assert(!is_control(s@[i as int]));
            assert(Some(s).deep_view() == Some(s@));
            return Some(s);
        }
        i = i + 1;
    }
    None
}

/// The event forwarded for a captured keystroke: the key, the states of
/// Shift and Ctrl (from `GetKeyState`), Alt from the hook flags, and the
/// text it produced.
pub fn kbd_event(vk: u32, scan: u32, shift_state: i16, ctrl_state: i16, flags: u32, text: Option<String>) -> (r: KbdEvent)
    ensures
        r.vk == vk,
        r.scan == scan,
        r.shift == key_down(shift_state),
        r.ctrl == key_down(ctrl_state),
        r.alt == alt_held(flags),
        r.text == text,
{
    KbdEvent {
        vk,
        scan,
        shift: is_key_down(shift_state),
        ctrl: is_key_down(ctrl_state),
        alt: (flags & LLKHF_ALTDOWN) != 0,
        text,
    }
}

/// One synthesized keyboard event.
#[derive(PartialEq, Eq, Structural, Clone, Copy, Debug)]
pub enum KeyInput {
    /// A virtual key pressed or released.
    Virtual { vk: u16, up: bool },
    /// A UTF-16 unit sent as a Unicode keystroke, pressed or released.
    Unicode { unit: u16, up: bool },
}

/// The UTF-16 encoding of a character.
pub open spec fn utf16_of(c: char) -> Seq<u16> {
    let v = c as u32;
    if v < 0x10000 {
        seq![v as u16]
    } else {
        seq![(0xD800 + (v - 0x10000) / 0x400) as u16, (0xDC00 + (v - 0x10000) % 0x400) as u16]
    }
}

/// Press and release of each unit, in order.
pub open spec fn unicode_inputs(units: Seq<u16>) -> Seq<KeyInput>
    decreases units.len(),
{
    if units.len() == 0 {
        Seq::empty()
    } else {
        seq![
            KeyInput::Unicode { unit: units[0], up: false },
            KeyInput::Unicode { unit: units[0], up: true },
        ] + unicode_inputs(units.drop_first())
    }
}

/// The key events that type `c`: Enter for a line break (`\n` or `\r`), Tab
/// for a tab, and otherwise its UTF-16 units as Unicode keystrokes.
pub open spec fn inputs_for_char(c: char) -> Seq<KeyInput> {
    if c == '\n' || c == '\r' {
        seq![KeyInput::Virtual { vk: VK_RETURN, up: false }, KeyInput::Virtual { vk: VK_RETURN, up: true }]
    } else if c == '\t' {
        seq![KeyInput::Virtual { vk: VK_TAB, up: false }, KeyInput::Virtual { vk: VK_TAB, up: true }]
    } else {
        unicode_inputs(utf16_of(c))
    }
}

/// The UTF-16 units of `c`.
pub fn utf16_units(c: char) -> (r: Vec<u16>)
    ensures
        r@ == utf16_of(c),
{
    let v = c as u32;
    let mut out: Vec<u16> = Vec::new();
    if v < 0x10000 {
        out.push(v as u16);
    } else {
        let w = v - 0x10000;
        assert(w < 0x100000) by {
            assert(c as u32 <= 0x10FFFF);
        }
        out.push((0xD800 + w / 0x400) as u16);
        out.push((0xDC00 + w % 0x400) as u16);
    }
    assert(out@ =~= utf16_of(c));
    out
}

/// The press and release of a virtual key.
pub fn inputs_for_vk(vk: u16) -> (r: Vec<KeyInput>)
    ensures
        r@ == seq![KeyInput::Virtual { vk, up: false }, KeyInput::Virtual { vk, up: true }],
{
    let mut r: Vec<KeyInput> = Vec::new();
    r.push(KeyInput::Virtual { vk, up: false });
    r.push(KeyInput::Virtual { vk, up: true });
    assert(r@ =~= seq![KeyInput::Virtual { vk, up: false }, KeyInput::Virtual { vk, up: true }]);
    r
}

/// The key events that type `ch`.
pub fn inputs_for_char_exec(ch: char) -> (r: Vec<KeyInput>)
    ensures
        r@ == inputs_for_char(ch),
{
    if ch == '\n' || ch == '\r' {
        return inputs_for_vk(VK_RETURN);
    }
    if ch == '\t' {
        return inputs_for_vk(VK_TAB);
    }
    let units = utf16_units(ch);
    let mut r: Vec<KeyInput> = Vec::new();
    let mut i: usize = 0;
    assert(units@.skip(0) =~= units@);
    assert(r@ + unicode_inputs(units@) =~= unicode_inputs(units@));
    while i < units.len()
        invariant
            i <= units.len(),
            r@ + unicode_inputs(units@.skip(i as int)) == unicode_inputs(units@),
        decreases units.len() - i,
    {
        let ghost rest = units@.skip(i as int);
        assert(rest[0] == units@[i as int]);
        assert(rest.drop_first() =~= units@.skip(i + 1));
        r.push(KeyInput::Unicode { unit: units[i], up: false });
        r.push(KeyInput::Unicode { unit: units[i], up: true });
        i = i + 1;
        assert(r@ + unicode_inputs(units@.skip(i as int)) =~= unicode_inputs(units@));
    }
    assert(units@.skip(units.len() as int) =~= Seq::<u16>::empty());
    assert(r@ + Seq::<KeyInput>::empty() =~= r@);
    r
}

/// Whether `SendInput` took all the events it was given.
pub fn check_sent(sent: u32, expected: u32) -> (r: Result<(), TypingError>)
    ensures
        r is Ok <==> sent == expected,
        r matches Err(e) ==> e == (TypingError::SendFailed { sent, expected }),
{
    if sent != expected {
        Err(TypingError::SendFailed { sent, expected })
    } else {
        Ok(())
    }
}

/// Whether the overlay should borrow the foreground thread's input queue to
/// take keyboard focus: there is a foreground window, it is not the
/// overlay, and it belongs to a known thread other than ours.
pub open spec fn focus_borrow(foreground: usize, overlay: usize, fg_thread: u32, our_thread: u32) -> bool {
    foreground != 0 && foreground != overlay && fg_thread != 0 && fg_thread != our_thread
}

pub fn should_borrow_focus(foreground: usize, overlay: usize, fg_thread: u32, our_thread: u32) -> (r: bool)
    ensures
        r == focus_borrow(foreground, overlay, fg_thread, our_thread),
{
    if foreground == 0 || foreground == overlay {
        return false;
    }
    if fg_thread == 0 || fg_thread == our_thread {
        return false;
    }
    true
}

/// Law: the keyboard hook never takes over Alt+Tab, Alt+F4, the Windows
/// keys or a lone modifier, nor anything while capture is off.
pub proof fn law_reserved_keys_pass(code: i32, active: bool, message: u32, vk: u32, flags: u32)
    ensures
        !active ==> hook_policy(code, active, message, vk, flags) == HookDecision::PassThrough,
        (vk == VK_LWIN || vk == VK_RWIN || vk == VK_SHIFT || vk == VK_CONTROL || vk == VK_MENU)
            ==> hook_policy(code, active, message, vk, flags) == HookDecision::PassThrough,
        (alt_held(flags) && (vk == VK_TAB as u32 || vk == VK_F4)) ==> hook_policy(
            code,
            active,
            message,
            vk,
            flags,
        ) == HookDecision::PassThrough,
{
}

/// Law: the UTF-16 units that type a character decode back to exactly that
/// character.
pub proof fn law_utf16_round_trip(c: char)
    ensures
        decode_utf16_lossy(utf16_of(c)) == seq![c],
{
    let v = c as u32;
    assert(v < 0xD800 || (0xE000 <= v <= 0x10FFFF));
    let u = utf16_of(c);
    if v < 0x10000 {
        assert(u.drop_first().len() == 0);
        assert(decode_utf16_lossy(u.drop_first()) == Seq::<char>::empty());
        assert(((v as u16) as u32) == v);
        assert(seq![c] + Seq::<char>::empty() =~= seq![c]);
    } else {
        let w = v - 0x10000;
        let hi = (0xD800 + w / 0x400) as u16;
        let lo = (0xDC00 + w % 0x400) as u16;
        assert(u.skip(2).len() == 0);
        assert(decode_utf16_lossy(u.skip(2)) == Seq::<char>::empty());
        assert(0x10000 + ((hi as u32) - 0xD800) * 0x400 + ((lo as u32) - 0xDC00) == v);
        assert(seq![c] + Seq::<char>::empty() =~= seq![c]);
    }
}

/// Law: a character is typed as presses each followed by their release:
/// two events per unit.
pub proof fn law_unicode_inputs_pair(units: Seq<u16>)
    ensures
        unicode_inputs(units).len() == 2 * units.len(),
        forall|i: int|
            0 <= i < units.len() ==> unicode_inputs(units)[2 * i] == (KeyInput::Unicode {
                unit: units[i],
                up: false,
            }) && unicode_inputs(units)[2 * i + 1] == (KeyInput::Unicode {
                unit: units[i],
                up: true,
            }),
    decreases units.len(),
{
    if units.len() > 0 {
        law_unicode_inputs_pair(units.drop_first());
        let head = seq![
            KeyInput::Unicode { unit: units[0], up: false },
            KeyInput::Unicode { unit: units[0], up: true },
        ];
        let rest = unicode_inputs(units.drop_first());
        assert forall|i: int| 0 <= i < units.len() implies unicode_inputs(units)[2 * i] == (
        KeyInput::Unicode { unit: units[i], up: false }) && unicode_inputs(units)[2 * i + 1] == (
        KeyInput::Unicode { unit: units[i], up: true }) by {
            if i > 0 {
                assert(units.drop_first()[i - 1] == units[i]);
                assert((head + rest)[2 * i] == rest[2 * (i - 1)]);
                assert((head + rest)[2 * i + 1] == rest[2 * (i - 1) + 1]);
            }
        }
    }
}

/// `WS_EX_TOOLWINDOW`: kept out of Alt+Tab and the taskbar.
pub const WS_EX_TOOLWINDOW: isize = 0x80;
/// `WS_EX_NOACTIVATE`: a click does not take the focus.
pub const WS_EX_NOACTIVATE: isize = 0x0800_0000;
/// `WS_EX_TRANSPARENT`: clicks fall through to the window behind.
pub const WS_EX_TRANSPARENT: isize = 0x20;

/// The extended style of a stealth window: the current one plus the tool
/// window and no-activate bits.
pub fn stealth_ex_style(current: isize) -> (r: isize)
    ensures
        r == current | WS_EX_TOOLWINDOW | WS_EX_NOACTIVATE,
{
    current | WS_EX_TOOLWINDOW | WS_EX_NOACTIVATE
}

/// The extended style that makes the overlay take clicks (`clickable`) or
/// let them through, or `None` when the current style already does.
pub fn clickable_ex_style(current: isize, clickable: bool) -> (r: Option<isize>)
    ensures
        ({
            let wanted = if clickable {
                current & !WS_EX_TRANSPARENT
            } else {
                current | WS_EX_TRANSPARENT
            };
            r == if wanted != current { Some(wanted) } else { None }
        }),
{
    let wanted = if clickable { current & !WS_EX_TRANSPARENT } else { current | WS_EX_TRANSPARENT };
    if wanted != current {
        Some(wanted)
    } else {
        None
    }
}

/// Law: making the overlay clickable or not changes only the transparent
/// bit: a clickable style lacks it, an unclickable one has it, every other
/// bit is kept, and switching back and forth returns the style the overlay
/// had when it lacked the bit.
pub proof fn law_clickable_touches_only_transparency(current: isize)
    ensures
        (current & !WS_EX_TRANSPARENT) & WS_EX_TRANSPARENT == 0,
        (current | WS_EX_TRANSPARENT) & WS_EX_TRANSPARENT == WS_EX_TRANSPARENT,
        (current & !WS_EX_TRANSPARENT) & !WS_EX_TRANSPARENT == current & !WS_EX_TRANSPARENT,
        (current | WS_EX_TRANSPARENT) & !WS_EX_TRANSPARENT == current & !WS_EX_TRANSPARENT,
        current & WS_EX_TRANSPARENT == 0 ==> (current | WS_EX_TRANSPARENT) & !WS_EX_TRANSPARENT
            == current,
{
    assert((current & !0x20isize) & 0x20isize == 0) by (bit_vector);
    assert((current | 0x20isize) & 0x20isize == 0x20isize) by (bit_vector);
    assert((current & !0x20isize) & !0x20isize == current & !0x20isize) by (bit_vector);
    assert((current | 0x20isize) & !0x20isize == current & !0x20isize) by (bit_vector);
    assert(current & 0x20isize == 0 ==> (current | 0x20isize) & !0x20isize == current) by (bit_vector);
}

/// Law: a forwarded keystroke's text is never empty and never made only of
/// control characters; keys like Enter or Backspace come without text.
pub proof fn law_key_text_is_printable(buf: Seq<u16>, n: i32)
    ensures
        key_text_of(buf, n) matches Some(s) ==> s.len() > 0 && exists|i: int|
            0 <= i < s.len() && !is_control(#[trigger] s[i]),
{
    if let Some(s) = key_text_of(buf, n) {
        let i = choose|i: int| 0 <= i < s.len() && !is_control(#[trigger] s[i]);
        assert(0 <= i < s.len());
    }
}

/// Law: while capture is on, every key-down (`WM_KEYDOWN` or
/// `WM_SYSKEYDOWN`) with hook code `HC_ACTION` is taken over, except Alt+Tab,
/// Alt+F4, the two Windows keys and Shift, Ctrl or Alt on their own; every
/// other keystroke, and every keystroke while capture is off, passes
/// through.
pub proof fn law_hook_takes_other_key_downs(
    code: i32,
    active: bool,
    message: u32,
    vk: u32,
    flags: u32,
)
    ensures
        hook_policy(code, active, message, vk, flags) == (if code == 0 && active && (message
            == 0x100 || message == 0x104) && !((flags & 0x20u32 != 0) && (vk == 0x09 || vk
            == 0x73)) && vk != 0x5B && vk != 0x5C && vk != 0x10 && vk != 0x11 && vk != 0x12 {
            HookDecision::Capture
        } else {
            HookDecision::PassThrough
        }),
{
}

/// Law: the text forwarded with a keystroke is the `n` units that
/// `ToUnicodeEx` wrote, decoded, exactly when `n` is positive and that text
/// holds a character outside the control characters U+0000..U+001F and
/// U+007F..U+009F; otherwise nothing is forwarded.
pub proof fn law_key_text_kept_unless_control(buf: Seq<u16>, n: i32)
    ensures
        n <= 0 ==> key_text_of(buf, n) is None,
        n > 0 ==> key_text_of(buf, n) == (if exists|i: int|
            0 <= i < decode_utf16_lossy(buf.take(n as int)).len() && !(#[trigger] decode_utf16_lossy(
                buf.take(n as int),
            )[i] <= '\u{1F}' || ('\u{7F}' <= decode_utf16_lossy(buf.take(n as int))[i]
                && decode_utf16_lossy(buf.take(n as int))[i] <= '\u{9F}')) {
            Some(decode_utf16_lossy(buf.take(n as int)))
        } else {
            None
        }),
{
}

/// A unit that is not a surrogate always comes out of decoding as its own
/// character.
proof fn lemma_plain_unit_decoded(u: Seq<u16>, i: int)
    requires
        0 <= i < u.len(),
        !(0xD800 <= u[i] <= 0xDFFF),
    ensures
        exists|j: int|
            0 <= j < decode_utf16_lossy(u).len() && #[trigger] decode_utf16_lossy(u)[j] == (
            u[i] as u32) as char,
    decreases u.len(),
{
    let d = decode_utf16_lossy(u);
    if i == 0 {
        assert(d[0] == (u[0] as u32) as char);
    } else if is_high_surrogate(u[0]) && u.len() >= 2 && is_low_surrogate(u[1]) {
        assert(i >= 2);
        let rest = u.skip(2);
        assert(rest[i - 2] == u[i]);
        lemma_plain_unit_decoded(rest, i - 2);
        let j = choose|j: int|
            0 <= j < decode_utf16_lossy(rest).len() && #[trigger] decode_utf16_lossy(rest)[j] == (
            rest[i - 2] as u32) as char;
        assert(d[j + 1] == decode_utf16_lossy(rest)[j]);
    } else {
        let rest = u.drop_first();
        assert(rest[i - 1] == u[i]);
        lemma_plain_unit_decoded(rest, i - 1);
        let j = choose|j: int|
            0 <= j < decode_utf16_lossy(rest).len() && #[trigger] decode_utf16_lossy(rest)[j] == (
            rest[i - 1] as u32) as char;
        assert(d[j + 1] == decode_utf16_lossy(rest)[j]);
    }
}

/// Law: a keystroke that wrote a unit which is neither a surrogate nor a
/// control character (such as the space) is forwarded with its text.
pub proof fn law_key_text_keeps_printable_unit(buf: Seq<u16>, n: i32, i: int)
    requires
        0 <= i < n <= buf.len(),
        !(0xD800 <= buf[i] <= 0xDFFF),
        !(buf[i] <= 0x1F || (0x7F <= buf[i] && buf[i] <= 0x9F)),
    ensures
        key_text_of(buf, n) == Some(decode_utf16_lossy(buf.take(n as int))),
{
    let u = buf.take(n as int);
    assert(u[i] == buf[i]);
    lemma_plain_unit_decoded(u, i);
    let d = decode_utf16_lossy(u);
    let j = choose|j: int| 0 <= j < d.len() && #[trigger] d[j] == (u[i] as u32) as char;
    assert(!is_control(d[j]));
}

/// Law: a line break (`\n` or `\r`) is typed as a press and release of Enter
/// and a tab as a press and release of Tab; every other character is typed
/// as a press and release of each of its UTF-16 units, in order, sent as
/// Unicode keystrokes: one unit (its code point) below U+10000, else the
/// high surrogate and then the low one. Those units decode back to the
/// character.
pub proof fn law_char_typed_as_its_units(c: char)
    ensures
        (c == '\n' || c == '\r') ==> inputs_for_char(c) == seq![
            KeyInput::Virtual { vk: 0x0D, up: false },
            KeyInput::Virtual { vk: 0x0D, up: true },
        ],
        c == '\t' ==> inputs_for_char(c) == seq![
            KeyInput::Virtual { vk: 0x09, up: false },
            KeyInput::Virtual { vk: 0x09, up: true },
        ],
        (c != '\n' && c != '\r' && c != '\t' && (c as u32) < 0x10000) ==> inputs_for_char(c)
            == seq![
            KeyInput::Unicode { unit: (c as u32) as u16, up: false },
            KeyInput::Unicode { unit: (c as u32) as u16, up: true },
        ],
        (c != '\n' && c != '\r' && c != '\t' && (c as u32) >= 0x10000) ==> inputs_for_char(c)
            == seq![
            KeyInput::Unicode { unit: (0xD800 + ((c as u32) - 0x10000) / 0x400) as u16, up: false },
            KeyInput::Unicode { unit: (0xD800 + ((c as u32) - 0x10000) / 0x400) as u16, up: true },
            KeyInput::Unicode { unit: (0xDC00 + ((c as u32) - 0x10000) % 0x400) as u16, up: false },
            KeyInput::Unicode { unit: (0xDC00 + ((c as u32) - 0x10000) % 0x400) as u16, up: true },
        ],
        (c != '\n' && c != '\r' && c != '\t') ==> decode_utf16_lossy(
            Seq::new(
                inputs_for_char(c).len() / 2,
                |k: int| inputs_for_char(c)[2 * k]->Unicode_unit,
            ),
        ) == seq![c],
{
    law_utf16_round_trip(c);
    if c != '\n' && c != '\r' && c != '\t' {
        let u = utf16_of(c);
        let ins = inputs_for_char(c);
        reveal_with_fuel(unicode_inputs, 3);
        if (c as u32) < 0x10000 {
            assert(u.drop_first().len() == 0);
            assert(ins =~= seq![
                KeyInput::Unicode { unit: (c as u32) as u16, up: false },
                KeyInput::Unicode { unit: (c as u32) as u16, up: true },
            ]);
        } else {
            assert(u.drop_first().drop_first().len() == 0);
            assert(u.drop_first()[0] == u[1]);
            assert(ins =~= seq![
                KeyInput::Unicode { unit: u[0], up: false },
                KeyInput::Unicode { unit: u[0], up: true },
                KeyInput::Unicode { unit: u[1], up: false },
                KeyInput::Unicode { unit: u[1], up: true },
            ]);
        }
        assert(Seq::new(ins.len() / 2, |k: int| ins[2 * k]->Unicode_unit) =~= u);
    }
}

} // verus!
