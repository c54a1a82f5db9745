use writingagent::typing::{
    delay_class, DelayClass, neighbor_key, neighbor_key_at, neighbor_keys, Draws, TypingAction, TypingError, TypingState,
};

fn no_luck() -> Draws {
    Draws { typo: false, neighbor: 0, typo_ms: 30, fix_ms: 50, extra_ms: 0, think: false, think_ms: 220 }
}

/// Runs a plain run to the end, collecting its actions.
fn run_all(text: &str, base: u32) -> (Vec<TypingAction>, TypingState) {
    let mut st = TypingState::new();
    let mut run = st.type_text(text, base, 0, false).ok().unwrap();
    let mut out = Vec::new();
    for _ in 0..1000 {
        let a = run.next_action(&mut st);
        out.push(a);
        if a == TypingAction::Done {
            break;
        }
    }
    (out, st)
}

#[test]
fn new_state_is_idle() {
    let st = TypingState::new();
    assert!(!st.is_active());
    assert!(!st.is_paused());
    assert_eq!(st.progress(), (0, 0));
}

#[test]
fn pause_resume_and_cancel_flags() {
    let mut st = TypingState::new();
    st.pause();
    assert!(st.is_paused());
    st.resume();
    assert!(!st.is_paused());
    st.pause();
    st.cancel();
    assert!(!st.is_paused());
}

#[test]
fn second_text_is_refused_while_typing() {
    let mut st = TypingState::new();
    let _run = st.type_text("abc", 10, 0, false).ok().unwrap();
    assert!(st.is_active());
    assert_eq!(st.progress(), (0, 3));
    match st.type_text("x", 10, 0, false) {
        Err(e) => {
            assert!(matches!(e, TypingError::AlreadyTyping));
            assert_eq!(e.message(), "typing already in progress");
        }
        Ok(_) => panic!("expected a refusal"),
    }
    assert_eq!(st.progress(), (0, 3));
}

#[test]
fn plain_run_types_each_char_then_reports() {
    let (actions, st) = run_all("ab", 35);
    assert_eq!(
        actions,
        vec![
            TypingAction::Type { ch: 'a' },
            TypingAction::Report { current: 1, total: 2, paused: false },
            TypingAction::Sleep { ms: 35 },
            TypingAction::Type { ch: 'b' },
            TypingAction::Report { current: 2, total: 2, paused: false },
            TypingAction::Sleep { ms: 35 },
            TypingAction::Done,
        ]
    );
    assert!(!st.is_active());
    assert_eq!(st.progress(), (2, 2));
}

#[test]
fn empty_text_finishes_at_once() {
    let (actions, st) = run_all("", 35);
    assert_eq!(actions, vec![TypingAction::Done]);
    assert!(!st.is_active());
}

#[test]
fn types_text_in_order() {
    let text = "h\u{e9}llo\n\u{1F600}";
    let (actions, st) = run_all(text, 1);
    let typed: String = actions
        .iter()
        .filter_map(|a| match a {
            TypingAction::Type { ch } => Some(*ch),
            _ => None,
        })
        .collect();
    assert_eq!(typed, text);
    let n = text.chars().count();
    assert_eq!(st.progress(), (n, n));
    let reports: Vec<usize> = actions
        .iter()
        .filter_map(|a| match a {
            TypingAction::Report { current, total, .. } => {
                assert!(current <= total);
                Some(*current)
            }
            _ => None,
        })
        .collect();
    assert_eq!(reports, (1..=n).collect::<Vec<_>>());
}

#[test]
fn pause_holds_then_resume_reports() {
    let mut st = TypingState::new();
    let mut run = st.type_text("xy", 5, 0, false).ok().unwrap();
    st.pause();
    assert_eq!(run.next_action(&mut st), TypingAction::Report { current: 0, total: 2, paused: true });
    for _ in 0..5 {
        assert_eq!(run.next_action(&mut st), TypingAction::Sleep { ms: 80 });
    }
    st.resume();
    assert_eq!(run.next_action(&mut st), TypingAction::Report { current: 0, total: 2, paused: false });
    assert_eq!(run.next_action(&mut st), TypingAction::Type { ch: 'x' });
}

#[test]
fn cancel_while_paused_stops() {
    let mut st = TypingState::new();
    let mut run = st.type_text("xy", 5, 0, false).ok().unwrap();
    st.pause();
    run.next_action(&mut st);
    run.next_action(&mut st);
    st.cancel();
    assert_eq!(run.next_action(&mut st), TypingAction::Done);
    assert!(!st.is_active());
    assert_eq!(st.progress(), (0, 2));
}

#[test]
fn cancel_stops_within_six_steps() {
    let mut st = TypingState::new();
    let mut run = st.type_text("hello", 5, 0, false).ok().unwrap();
    assert_eq!(run.next_action(&mut st), TypingAction::Type { ch: 'h' });
    st.cancel();
    let mut steps = 0;
    loop {
        steps += 1;
        if run.next_action(&mut st) == TypingAction::Done {
            break;
        }
        assert!(steps <= 6);
    }
    assert!(steps <= 6);
    assert!(!st.is_active());
    assert_eq!(st.progress(), (1, 5));
}

#[test]
fn jitter_stays_within_bounds() {
    let mut st = TypingState::new();
    let mut run = st.type_text("abcdefghij", 20, 15, false).ok().unwrap();
    loop {
        match run.next_action(&mut st) {
            TypingAction::Sleep { ms } => assert!((20..=35).contains(&ms)),
            TypingAction::Done => break,
            _ => {}
        }
    }
}

#[test]
fn human_typo_is_corrected() {
    let mut st = TypingState::new();
    let mut run = st.type_text("a", 40, 0, true).ok().unwrap();
    let d = Draws { typo: true, neighbor: 2, typo_ms: 45, fix_ms: 70, extra_ms: 0, think: false, think_ms: 220 };
    assert_eq!(run.step(&mut st, &d), TypingAction::Type { ch: 's' });
    assert_eq!(run.step(&mut st, &d), TypingAction::Sleep { ms: 45 });
    assert_eq!(run.step(&mut st, &d), TypingAction::Backspace);
    assert_eq!(run.step(&mut st, &d), TypingAction::Sleep { ms: 70 });
    assert_eq!(run.step(&mut st, &d), TypingAction::Type { ch: 'a' });
    assert_eq!(run.step(&mut st, &d), TypingAction::Report { current: 1, total: 1, paused: false });
    assert_eq!(run.step(&mut st, &d), TypingAction::HumanDelay { ch: 'a', base_ms: 40 });
    assert_eq!(run.step(&mut st, &d), TypingAction::Done);
}

#[test]
fn typo_cancelled_before_correction_skips_backspace() {
    let mut st = TypingState::new();
    let mut run = st.type_text("Q", 40, 0, true).ok().unwrap();
    let d = Draws { typo: true, neighbor: 1, typo_ms: 30, fix_ms: 50, extra_ms: 0, think: false, think_ms: 220 };
    assert_eq!(run.step(&mut st, &d), TypingAction::Type { ch: 'A' });
    assert_eq!(run.step(&mut st, &d), TypingAction::Sleep { ms: 30 });
    st.cancel();
    assert_eq!(run.step(&mut st, &d), TypingAction::Type { ch: 'Q' });
}

#[test]
fn human_thinking_pause_sleeps_in_fifties() {
    let mut st = TypingState::new();
    let mut run = st.type_text("1", 40, 0, true).ok().unwrap();
    let d = Draws { typo: true, neighbor: 0, typo_ms: 30, fix_ms: 50, extra_ms: 0, think: true, think_ms: 220 };
    assert_eq!(run.step(&mut st, &d), TypingAction::Type { ch: '1' });
    run.step(&mut st, &d);
    assert_eq!(run.step(&mut st, &d), TypingAction::HumanDelay { ch: '1', base_ms: 40 });
    for _ in 0..5 {
        assert_eq!(run.step(&mut st, &d), TypingAction::Sleep { ms: 50 });
    }
    assert_eq!(run.step(&mut st, &d), TypingAction::Done);
}

#[test]
fn no_typo_without_human_mode() {
    let mut st = TypingState::new();
    let mut run = st.type_text("a", 40, 0, false).ok().unwrap();
    let d = Draws { typo: true, ..no_luck() };
    assert_eq!(run.step(&mut st, &d), TypingAction::Type { ch: 'a' });
}

#[test]
fn neighbor_keys_follow_qwerty() {
    assert_eq!(neighbor_keys('s'), vec!['a', 'w', 'e', 'd', 'x', 'z']);
    assert_eq!(neighbor_keys('S'), Vec::<char>::new());
    assert_eq!(neighbor_key_at('A', 1), Some('W'));
    assert_eq!(neighbor_key_at('m', 2), Some('k'));
    assert_eq!(neighbor_key_at('m', 3), None);
    assert_eq!(neighbor_key('7'), None);
    for _ in 0..50 {
        let n = neighbor_key('G').unwrap();
        assert!(['F', 'T', 'Y', 'H', 'B', 'V'].contains(&n));
    }
}

#[test]
fn send_failure_message() {
    let e = TypingError::SendFailed { sent: 1, expected: 2 };
    assert_eq!(e.message(), "SendInput returned 1, expected 2");
}

#[test]
fn delay_classes_by_character() {
    assert_eq!(delay_class(' '), DelayClass::Space);
    assert_eq!(delay_class('\n'), DelayClass::Newline);
    assert_eq!(delay_class('\r'), DelayClass::Other);
    for c in ['.', '!', '?'] {
        assert_eq!(delay_class(c), DelayClass::SentenceEnd);
    }
    for c in [',', ';', ':'] {
        assert_eq!(delay_class(c), DelayClass::SoftPause);
    }
    for c in ['(', ')', '{', '}', '[', ']'] {
        assert_eq!(delay_class(c), DelayClass::Bracket);
    }
    assert_eq!(delay_class('x'), DelayClass::Other);
}
