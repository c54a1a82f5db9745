//! Keystroke-by-keystroke typing with pause, resume and cancel.
//!
//! `TypingState` holds the flags that other threads set while a text is
//! typed. `TypingRun` is the typing loop as a state machine: each call of
//! `TypingRun::next_action` reads the flags, decides, and returns the one
//! thing to do next (report progress, sleep, send a key, or stop); the
//! caller does it and asks again. Human mode adds neighbour-key typos with a
//! backspace correction and rare "thinking" pauses.

use vstd::prelude::*;
use rand::Rng;
use crate::text::{decimal, push_decimal_u64};

verus! {

/// Why typing could not start or stopped.
pub enum TypingError {
    /// A text is already being typed.
    AlreadyTyping,
    /// The system accepted fewer key events than it was given.
    SendFailed { sent: u32, expected: u32 },
}

pub open spec fn typing_error_text(e: TypingError) -> Seq<char> {
    match e {
        TypingError::AlreadyTyping => "typing already in progress"@,
        TypingError::SendFailed { sent, expected } => "SendInput returned "@ + decimal(sent as int)
            + ", expected "@ + decimal(expected as int),
    }
}

impl TypingError {
    pub fn message(&self) -> (r: String)
        ensures
            r@ == typing_error_text(*self),
    {
        match self {
            TypingError::AlreadyTyping => String::from_str("typing already in progress"),
            TypingError::SendFailed { sent, expected } => {
                let mut s = String::from_str("SendInput returned ");
                push_decimal_u64(&mut s, *sent as u64);
                s.append(", expected ");
                push_decimal_u64(&mut s, *expected as u64);
                s
            },
        }
    }
}

/// The flags of a typing session, shared between the typing loop and the
/// controls.
pub struct TypingState {
    cancel: bool,
    pause: bool,
    active: bool,
    progress: usize,
    total: usize,
}

/// `TypingState` as plain values.
pub struct Flags {
    pub cancel: bool,
    pub pause: bool,
    pub active: bool,
    pub progress: nat,
    pub total: nat,
}

impl TypingState {
    pub closed spec fn flags(self) -> Flags {
        Flags {
            cancel: self.cancel,
            pause: self.pause,
            active: self.active,
            progress: self.progress as nat,
            total: self.total as nat,
        }
    }

    /// Idle, nothing typed.
    pub fn new() -> (r: TypingState)
        ensures
            r.flags() == (Flags { cancel: false, pause: false, active: false, progress: 0, total: 0 }),
    {
        TypingState { cancel: false, pause: false, active: false, progress: 0, total: 0 }
    }

    /// Asks the running text to stop; a pause is lifted so the stop is seen.
    pub fn cancel(&mut self)
        ensures
            final(self).flags() == (Flags { cancel: true, pause: false, ..old(self).flags() }),
    {
        self.cancel = true;
        self.pause = false;
    }

    /// Holds the typing before its next character.
    pub fn pause(&mut self)
        ensures
            final(self).flags() == (Flags { pause: true, ..old(self).flags() }),
    {
        self.pause = true;
    }

    /// Lets a paused text go on.
    pub fn resume(&mut self)
        ensures
            final(self).flags() == (Flags { pause: false, ..old(self).flags() }),
    {
        self.pause = false;
    }

    pub fn is_paused(&self) -> (r: bool)
        ensures
            r == self.flags().pause,
    {
        self.pause
    }

    pub fn is_active(&self) -> (r: bool)
        ensures
            r == self.flags().active,
    {
        self.active
    }

    /// Characters typed so far, and the length of the text.
    pub fn progress(&self) -> (r: (usize, usize))
        ensures
            r.0 == self.flags().progress,
            r.1 == self.flags().total,
    {
        (self.progress, self.total)
    }

    /// Starts typing `text`: refused while another text is being typed;
    /// otherwise the session becomes active with no cancel and no pause,
    /// progress 0 of the text's length, and the returned run starts at its
    /// first character. `base_delay_ms` is the delay after each character,
    /// plus up to `jitter_ms` at random unless `human` mode sets the pace.
    pub fn type_text(&mut self, text: &str, base_delay_ms: u32, jitter_ms: u32, human: bool) -> (r:
        Result<TypingRun, TypingError>)
        requires
            human || base_delay_ms + jitter_ms <= u32::MAX,
        ensures
            old(self).flags().active ==> (r matches Err(e) && e is AlreadyTyping),
            old(self).flags().active ==> final(self).flags() == old(self).flags(),
            !old(self).flags().active ==> (r matches Ok(run) && run_inv(run.model(), final(self).flags())),
            !old(self).flags().active ==> (r matches Ok(run) && final(self).flags() == (Flags {
                cancel: false,
                pause: false,
                active: true,
                progress: 0,
                total: text@.len(),
            }) && run.model() == (RunModel {
                chars: text@,
                index: 0,
                last_paused: false,
                stage: Stage::Start,
                human,
                base_ms: base_delay_ms,
                jitter_ms,
                think_ms: 0,
                thought_ms: 0,
            })),
    {
        if self.active {
            return Err(TypingError::AlreadyTyping);
        }
        self.active = true;
        self.cancel = false;
        self.pause = false;
        let chars = crate::text::chars_of(text);
        self.total = chars.len();
        self.progress = 0;
        Ok(
            TypingRun {
                chars,
                index: 0,
                last_paused: false,
                stage: Stage::Start,
                human,
                base_ms: base_delay_ms,
                jitter_ms,
                think_ms: 0,
                thought_ms: 0,
            },
        )
    }
}

/// Where the typing loop stands.
#[derive(PartialEq, Eq, Structural, Clone, Copy, Debug)]
pub enum Stage {
    /// About to check for a cancel before the current character.
    Start,
    /// Reported the pause; about to wait.
    PauseSleep,
    /// Waited while paused; about to look at the flags again.
    PauseWake,
    /// Reported the resume; about to decide on a typo.
    TypoCheck,
    /// Typed a wrong key; about to wait.
    TypoSleep,
    /// Waited after the wrong key; about to erase it unless cancelled.
    TypoFix,
    /// Erased the wrong key; about to wait.
    TypoFixSleep,
    /// About to type the current character.
    TypeChar,
    /// Typed the current character; about to report it.
    Typed,
    /// Reported it; about to wait before the next one.
    Delay,
    /// Waited; about to decide on a thinking pause.
    Think,
    /// In a thinking pause.
    ThinkLoop,
    /// Done.
    Finished,
}

/// The next thing the typing loop asks for.
#[derive(PartialEq, Eq, Structural, Clone, Copy, Debug)]
pub enum TypingAction {
    /// Call the progress callback.
    Report { current: usize, total: usize, paused: bool },
    /// Sleep this long.
    Sleep { ms: u32 },
    /// Send this character as a keystroke.
    Type { ch: char },
    /// Send a backspace.
    Backspace,
    /// Sleep for a human-paced delay after `ch`, around `base_ms`.
    HumanDelay { ch: char, base_ms: u32 },
    /// Typing is over.
    Done,
}

/// How long a human pauses after a character, by kind of character.
#[derive(PartialEq, Eq, Structural, Clone, Copy, Debug)]
pub enum DelayClass {
    /// A space: a word boundary.
    Space,
    /// A line break: the end of a thought.
    Newline,
    /// `.`, `!` or `?`: the end of a sentence.
    SentenceEnd,
    /// `,`, `;` or `:`: a soft pause.
    SoftPause,
    /// A parenthesis, brace or bracket.
    Bracket,
    /// Anything else.
    Other,
}

pub open spec fn delay_class_of(c: char) -> DelayClass {
    if c == ' ' {
        DelayClass::Space
    } else if c == '\n' {
        DelayClass::Newline
    } else if c == '.' || c == '!' || c == '?' {
        DelayClass::SentenceEnd
    } else if c == ',' || c == ';' || c == ':' {
        DelayClass::SoftPause
    } else if c == '(' || c == ')' || c == '{' || c == '}' || c == '[' || c == ']' {
        DelayClass::Bracket
    } else {
        DelayClass::Other
    }
}

/// The kind of pause a human makes after `c`.
pub fn delay_class(c: char) -> (r: DelayClass)
    ensures
        r == delay_class_of(c),
{
    if c == ' ' {
        DelayClass::Space
    } else if c == '\n' {
        DelayClass::Newline
    } else if c == '.' || c == '!' || c == '?' {
        DelayClass::SentenceEnd
    } else if c == ',' || c == ';' || c == ':' {
        DelayClass::SoftPause
    } else if c == '(' || c == ')' || c == '{' || c == '}' || c == '[' || c == ']' {
        DelayClass::Bracket
    } else {
        DelayClass::Other
    }
}

/// The typing loop over one text.
pub struct TypingRun {
    chars: Vec<char>,
    index: usize,
    last_paused: bool,
    stage: Stage,
    human: bool,
    base_ms: u32,
    jitter_ms: u32,
    think_ms: u32,
    thought_ms: u32,
}

/// `TypingRun` as plain values.
pub struct RunModel {
    pub chars: Seq<char>,
    pub index: nat,
    pub last_paused: bool,
    pub stage: Stage,
    pub human: bool,
    pub base_ms: u32,
    pub jitter_ms: u32,
    pub think_ms: u32,
    pub thought_ms: u32,
}

/// The random values one step may use.
pub struct Draws {
    /// Whether to make a typo (chance 9 in 500, i.e. 0.018).
    pub typo: bool,
    /// Which neighbour key the typo hits.
    pub neighbor: usize,
    /// The wait after a wrong key, 30 to 90 ms.
    pub typo_ms: u32,
    /// The wait after its correction, 50 to 120 ms.
    pub fix_ms: u32,
    /// The random part of the delay, 0 to the jitter.
    pub extra_ms: u32,
    /// Whether to pause and think (chance 3 in 500, i.e. 0.006).
    pub think: bool,
    /// How long to think, 220 to 750 ms.
    pub think_ms: u32,
}

/// The neighbours of a lower-case letter on a QWERTY keyboard.
pub open spec fn neighbor_row(c: char) -> Seq<char> {
    if c == 'q' { seq!['w', 'a'] }
    else if c == 'w' { seq!['q', 'e', 's', 'a'] }
    else if c == 'e' { seq!['w', 'r', 'd', 's'] }
    else if c == 'r' { seq!['e', 't', 'f', 'd'] }
    else if c == 't' { seq!['r', 'y', 'g', 'f'] }
    else if c == 'y' { seq!['t', 'u', 'h', 'g'] }
    else if c == 'u' { seq!['y', 'i', 'j', 'h'] }
    else if c == 'i' { seq!['u', 'o', 'k', 'j'] }
    else if c == 'o' { seq!['i', 'p', 'l', 'k'] }
    else if c == 'p' { seq!['o', 'l'] }
    else if c == 'a' { seq!['q', 'w', 's', 'z'] }
    else if c == 's' { seq!['a', 'w', 'e', 'd', 'x', 'z'] }
    else if c == 'd' { seq!['s', 'e', 'r', 'f', 'c', 'x'] }
    else if c == 'f' { seq!['d', 'r', 't', 'g', 'v', 'c'] }
    else if c == 'g' { seq!['f', 't', 'y', 'h', 'b', 'v'] }
    else if c == 'h' { seq!['g', 'y', 'u', 'j', 'n', 'b'] }
    else if c == 'j' { seq!['h', 'u', 'i', 'k', 'm', 'n'] }
    else if c == 'k' { seq!['j', 'i', 'o', 'l', 'm'] }
    else if c == 'l' { seq!['k', 'o', 'p'] }
    else if c == 'z' { seq!['a', 's', 'x'] }
    else if c == 'x' { seq!['z', 's', 'd', 'c'] }
    else if c == 'c' { seq!['x', 'd', 'f', 'v'] }
    else if c == 'v' { seq!['c', 'f', 'g', 'b'] }
    else if c == 'b' { seq!['v', 'g', 'h', 'n'] }
    else if c == 'n' { seq!['b', 'h', 'j', 'm'] }
    else if c == 'm' { seq!['n', 'j', 'k'] }
    else { Seq::empty() }
}

pub open spec fn is_ascii_upper(c: char) -> bool {
    'A' <= c && c <= 'Z'
}

pub open spec fn is_ascii_lower(c: char) -> bool {
    'a' <= c && c <= 'z'
}

pub open spec fn is_ascii_alpha(c: char) -> bool {
    is_ascii_upper(c) || is_ascii_lower(c)
}

pub open spec fn to_lower(c: char) -> char {
    if is_ascii_upper(c) { ((c as u32) + 32) as char } else { c }
}

pub open spec fn to_upper(c: char) -> char {
    if is_ascii_lower(c) { ((c as u32) - 32) as char } else { c }
}

/// The `i`-th neighbour of `c`, upper-cased when `c` is upper case.
pub open spec fn neighbor_at(c: char, i: int) -> Option<char> {
    let row = neighbor_row(to_lower(c));
    if 0 <= i < row.len() {
        Some(if is_ascii_upper(c) { to_upper(row[i]) } else { row[i] })
    } else {
        None
    }
}

fn lower(c: char) -> (r: char)
    ensures
        r == to_lower(c),
{
    if 'A' <= c && c <= 'Z' {
        ((c as u32) + 32) as u8 as char
    } else {
        c
    }
}

fn upper(c: char) -> (r: char)
    ensures
        r == to_upper(c),
{
    if 'a' <= c && c <= 'z' {
        ((c as u32) - 32) as u8 as char
    } else {
        c
    }
}

/// The neighbours of a lower-case letter, or none for any other character.
pub fn neighbor_keys(c: char) -> (r: Vec<char>)
    ensures
        r@ == neighbor_row(c),
{
    let v: Vec<char> = if c == 'q' { vec!['w', 'a'] }
    else if c == 'w' { vec!['q', 'e', 's', 'a'] }
    else if c == 'e' { vec!['w', 'r', 'd', 's'] }
    else if c == 'r' { vec!['e', 't', 'f', 'd'] }
    else if c == 't' { vec!['r', 'y', 'g', 'f'] }
    else if c == 'y' { vec!['t', 'u', 'h', 'g'] }
    else if c == 'u' { vec!['y', 'i', 'j', 'h'] }
    else if c == 'i' { vec!['u', 'o', 'k', 'j'] }
    else if c == 'o' { vec!['i', 'p', 'l', 'k'] }
    else if c == 'p' { vec!['o', 'l'] }
    else if c == 'a' { vec!['q', 'w', 's', 'z'] }
    else if c == 's' { vec!['a', 'w', 'e', 'd', 'x', 'z'] }
    else if c == 'd' { vec!['s', 'e', 'r', 'f', 'c', 'x'] }
    else if c == 'f' { vec!['d', 'r', 't', 'g', 'v', 'c'] }
    else if c == 'g' { vec!['f', 't', 'y', 'h', 'b', 'v'] }
    else if c == 'h' { vec!['g', 'y', 'u', 'j', 'n', 'b'] }
    else if c == 'j' { vec!['h', 'u', 'i', 'k', 'm', 'n'] }
    else if c == 'k' { vec!['j', 'i', 'o', 'l', 'm'] }
    else if c == 'l' { vec!['k', 'o', 'p'] }
    else if c == 'z' { vec!['a', 's', 'x'] }
    else if c == 'x' { vec!['z', 's', 'd', 'c'] }
    else if c == 'c' { vec!['x', 'd', 'f', 'v'] }
    else if c == 'v' { vec!['c', 'f', 'g', 'b'] }
    else if c == 'b' { vec!['v', 'g', 'h', 'n'] }
    else if c == 'n' { vec!['b', 'h', 'j', 'm'] }
    else if c == 'm' { vec!['n', 'j', 'k'] }
    else { Vec::new() };
    assert(v@ =~= neighbor_row(c));
    v
}

/// The `i`-th neighbour key of `c` (case kept), if it has that many.
pub fn neighbor_key_at(c: char, i: usize) -> (r: Option<char>)
    ensures
        r == neighbor_at(c, i as int),
{
    let row = neighbor_keys(lower(c));
    if i < row.len() {
        let n = row[i];
        Some(if 'A' <= c && c <= 'Z' { upper(n) } else { n })
    } else {
        None
    }
}

/// A uniformly random index below `n`, from the thread's generator.
#[verifier::external_body]
fn random_below(n: usize) -> (r: usize)
    requires
        n > 0,
    ensures
        r < n,
{
    rand::thread_rng().gen_range(0..n)
}

/// A uniformly random value from `lo` to `hi` inclusive, from the thread's
/// generator.
#[verifier::external_body]
fn random_between(lo: u32, hi: u32) -> (r: u32)
    requires
        lo <= hi,
    ensures
        lo <= r <= hi,
{
    rand::thread_rng().gen_range(lo..=hi)
}

/// `true` with probability `numerator / denominator`, from the thread's
/// generator: never when the numerator is 0, always when it equals the
/// denominator.
#[verifier::external_body]
fn chance(numerator: u32, denominator: u32) -> (r: bool)
    requires
        0 < denominator,
        numerator <= denominator,
    ensures
        numerator == 0 ==> !r,
        numerator == denominator ==> r,
{
    rand::thread_rng().gen_ratio(numerator, denominator)
}

/// A random neighbour key of `c`, upper-cased when `c` is, or `None` when
/// `c` is not a letter.
pub fn neighbor_key(c: char) -> (r: Option<char>)
    ensures
        r is Some <==> neighbor_row(to_lower(c)).len() > 0,
        r matches Some(n) ==> exists|i: int| 0 <= i < neighbor_row(to_lower(c)).len()
            && neighbor_at(c, i) == Some(n),
{
    let row = neighbor_keys(lower(c));
    if row.len() == 0 {
        return None;
    }
    let i = random_below(row.len());
    let r = neighbor_key_at(c, i);
    assert(neighbor_at(c, i as int) == r);
    r
}

/// The character that the next typo decision is about: after a character's
/// delay the loop moves on to the one after it.
pub open spec fn upcoming_char(m: RunModel) -> Option<char> {
    let i = match m.stage {
        Stage::Think | Stage::ThinkLoop => (m.index + 1) as int,
        _ => m.index as int,
    };
    if 0 <= i < m.chars.len() {
        Some(m.chars[i])
    } else {
        None
    }
}

/// The draws lie within the ranges the loop draws them from.
pub open spec fn draws_ok(d: Draws, jitter_ms: u32) -> bool {
    &&& 30 <= d.typo_ms <= 90
    &&& 50 <= d.fix_ms <= 120
    &&& d.extra_ms <= jitter_ms
    &&& 220 <= d.think_ms <= 750
}

/// A step's result: the run and the flags after it, and its action.
pub struct StepModel {
    pub run: RunModel,
    pub flags: Flags,
    pub action: TypingAction,
}

pub open spec fn stop(r: RunModel, f: Flags) -> StepModel {
    StepModel {
        run: RunModel { stage: Stage::Finished, ..r },
        flags: Flags { active: false, ..f },
        action: TypingAction::Done,
    }
}

pub open spec fn type_current(r: RunModel, f: Flags) -> StepModel {
    StepModel {
        run: RunModel { stage: Stage::Typed, ..r },
        flags: f,
        action: TypingAction::Type { ch: r.chars[r.index as int] },
    }
}

pub open spec fn typo_check(r: RunModel, f: Flags, d: Draws) -> StepModel {
    let ch = r.chars[r.index as int];
    if r.human && is_ascii_alpha(ch) && d.typo && neighbor_at(ch, d.neighbor as int) is Some {
        StepModel {
            run: RunModel { stage: Stage::TypoSleep, ..r },
            flags: f,
            action: TypingAction::Type { ch: neighbor_at(ch, d.neighbor as int)->0 },
        }
    } else {
        type_current(r, f)
    }
}

pub open spec fn pause_check(r: RunModel, f: Flags, d: Draws) -> StepModel {
    if f.pause {
        if !r.last_paused {
            StepModel {
                run: RunModel { last_paused: true, stage: Stage::PauseSleep, ..r },
                flags: f,
                action: TypingAction::Report {
                    current: r.index as usize,
                    total: r.chars.len() as usize,
                    paused: true,
                },
            }
        } else {
            StepModel {
                run: RunModel { stage: Stage::PauseWake, ..r },
                flags: f,
                action: TypingAction::Sleep { ms: 80 },
            }
        }
    } else if r.last_paused {
        StepModel {
            run: RunModel { last_paused: false, stage: Stage::TypoCheck, ..r },
            flags: f,
            action: TypingAction::Report {
                current: r.index as usize,
                total: r.chars.len() as usize,
                paused: false,
            },
        }
    } else {
        typo_check(r, f, d)
    }
}

pub open spec fn begin_char(r: RunModel, f: Flags, d: Draws) -> StepModel {
    if f.cancel || r.index >= r.chars.len() {
        stop(r, f)
    } else {
        pause_check(r, f, d)
    }
}

pub open spec fn next_char(r: RunModel, f: Flags, d: Draws) -> StepModel {
    begin_char(RunModel { index: r.index + 1, stage: Stage::Start, ..r }, f, d)
}

pub open spec fn think_step(r: RunModel, f: Flags, d: Draws) -> StepModel {
    if r.thought_ms < r.think_ms {
        if f.cancel {
            next_char(r, f, d)
        } else {
            StepModel {
                run: RunModel {
                    thought_ms: (r.thought_ms + 50) as u32,
                    stage: Stage::ThinkLoop,
                    ..r
                },
                flags: f,
                action: TypingAction::Sleep { ms: 50 },
            }
        }
    } else {
        next_char(r, f, d)
    }
}

/// One step of the typing loop, from the run, the flags and the random
/// draws.
pub open spec fn transition(r: RunModel, f: Flags, d: Draws) -> StepModel {
    match r.stage {
        Stage::Start => begin_char(r, f, d),
        Stage::PauseSleep => StepModel {
            run: RunModel { stage: Stage::PauseWake, ..r },
            flags: f,
            action: TypingAction::Sleep { ms: 80 },
        },
        Stage::PauseWake => if f.cancel {
            stop(r, f)
        } else {
            pause_check(r, f, d)
        },
        Stage::TypoCheck => typo_check(r, f, d),
        Stage::TypoSleep => StepModel {
            run: RunModel { stage: Stage::TypoFix, ..r },
            flags: f,
            action: TypingAction::Sleep { ms: d.typo_ms },
        },
        Stage::TypoFix => if !f.cancel {
            StepModel {
                run: RunModel { stage: Stage::TypoFixSleep, ..r },
                flags: f,
                action: TypingAction::Backspace,
            }
        } else {
            type_current(r, f)
        },
        Stage::TypoFixSleep => StepModel {
            run: RunModel { stage: Stage::TypeChar, ..r },
            flags: f,
            action: TypingAction::Sleep { ms: d.fix_ms },
        },
        Stage::TypeChar => type_current(r, f),
        Stage::Typed => StepModel {
            run: RunModel { stage: Stage::Delay, ..r },
            flags: Flags { progress: r.index + 1, ..f },
            action: TypingAction::Report {
                current: (r.index + 1) as usize,
                total: r.chars.len() as usize,
                paused: false,
            },
        },
        Stage::Delay => StepModel {
            run: RunModel { stage: Stage::Think, ..r },
            flags: f,
            action: if r.human {
                TypingAction::HumanDelay { ch: r.chars[r.index as int], base_ms: r.base_ms }
            } else {
                TypingAction::Sleep {
                    ms: (r.base_ms + if r.jitter_ms > 0 { d.extra_ms } else { 0 }) as u32,
                }
            },
        },
        Stage::Think => if r.human && d.think {
            think_step(RunModel { think_ms: d.think_ms, thought_ms: 0, ..r }, f, d)
        } else {
            next_char(r, f, d)
        },
        Stage::ThinkLoop => think_step(r, f, d),
        Stage::Finished => StepModel { run: r, flags: f, action: TypingAction::Done },
    }
}

/// How a run relates to the flags of its session while it runs.
pub open spec fn run_inv(r: RunModel, f: Flags) -> bool {
    &&& f.total == r.chars.len()
    &&& r.index <= r.chars.len()
    &&& r.stage != Stage::Start && r.stage != Stage::Finished ==> r.index < r.chars.len()
    &&& match r.stage {
        Stage::Delay | Stage::Think | Stage::ThinkLoop => f.progress == r.index + 1,
        _ => f.progress == r.index,
    }
    &&& !r.human ==> r.base_ms + r.jitter_ms <= u32::MAX
    &&& r.think_ms <= 750
    &&& r.chars.len() <= usize::MAX
    &&& r.last_paused ==> (r.stage == Stage::PauseSleep || r.stage == Stage::PauseWake)
}

impl TypingRun {
    pub closed spec fn model(self) -> RunModel {
        RunModel {
            chars: self.chars@,
            index: self.index as nat,
            last_paused: self.last_paused,
            stage: self.stage,
            human: self.human,
            base_ms: self.base_ms,
            jitter_ms: self.jitter_ms,
            think_ms: self.think_ms,
            thought_ms: self.thought_ms,
        }
    }

    fn upcoming_char(&self) -> (r: Option<char>)
        ensures
            r == upcoming_char(self.model()),
    {
        let i = match self.stage {
            Stage::Think | Stage::ThinkLoop => {
                if self.index >= self.chars.len() {
                    return None;
                }
                self.index + 1
            },
            _ => self.index,
        };
        if i < self.chars.len() {
            Some(self.chars[i])
        } else {
            None
        }
    }

    /// Draws, from the thread's generator, every random value the next step
    /// may use; the step uses only those its path needs. The neighbour index
    /// is drawn for the character the next typo decision is about.
    pub fn roll(&self) -> (d: Draws)
        ensures
            draws_ok(d, self.model().jitter_ms),
            upcoming_char(self.model()) matches Some(c) ==> (neighbor_row(to_lower(c)).len() > 0
                ==> d.neighbor < neighbor_row(to_lower(c)).len()),
    {
        let n = match self.upcoming_char() {
            Some(c) => neighbor_keys(lower(c)).len(),
            None => 0,
        };
        Draws {
            typo: chance(9, 500),
            neighbor: if n > 0 { random_below(n) } else { 0 },
            typo_ms: random_between(30, 90),
            fix_ms: random_between(50, 120),
            extra_ms: if self.jitter_ms > 0 { random_between(0, self.jitter_ms) } else { 0 },
            think: chance(3, 500),
            think_ms: random_between(220, 750),
        }
    }
}

impl TypingRun {
    fn stop(&mut self, state: &mut TypingState) -> (a: TypingAction)
        ensures
            (StepModel { run: final(self).model(), flags: final(state).flags(), action: a })
                == stop(old(self).model(), old(state).flags()),
    {
        self.stage = Stage::Finished;
        state.active = false;
        TypingAction::Done
    }

    fn type_current(&mut self, state: &TypingState) -> (a: TypingAction)
        requires
            old(self).index < old(self).chars.len(),
        ensures
            (StepModel { run: final(self).model(), flags: state.flags(), action: a })
                == type_current(old(self).model(), state.flags()),
    {
        self.stage = Stage::Typed;
        TypingAction::Type { ch: self.chars[self.index] }
    }

    fn typo_check(&mut self, state: &TypingState, d: &Draws) -> (a: TypingAction)
        requires
            old(self).index < old(self).chars.len(),
        ensures
            (StepModel { run: final(self).model(), flags: state.flags(), action: a })
                == typo_check(old(self).model(), state.flags(), *d),
    {
        let ch = self.chars[self.index];
        if self.human && (('A' <= ch && ch <= 'Z') || ('a' <= ch && ch <= 'z')) && d.typo {
            match neighbor_key_at(ch, d.neighbor) {
                Some(wrong) => {
                    self.stage = Stage::TypoSleep;
                    return TypingAction::Type { ch: wrong };
                },
                None => {},
            }
        }
        self.type_current(state)
    }

    fn pause_check(&mut self, state: &TypingState, d: &Draws) -> (a: TypingAction)
        requires
            old(self).index < old(self).chars.len(),
        ensures
            (StepModel { run: final(self).model(), flags: state.flags(), action: a })
                == pause_check(old(self).model(), state.flags(), *d),
    {
        if state.pause {
            if !self.last_paused {
                self.last_paused = true;
                self.stage = Stage::PauseSleep;
                TypingAction::Report { current: self.index, total: self.chars.len(), paused: true }
            } else {
                self.stage = Stage::PauseWake;
                TypingAction::Sleep { ms: 80 }
            }
        } else if self.last_paused {
            self.last_paused = false;
            self.stage = Stage::TypoCheck;
            TypingAction::Report { current: self.index, total: self.chars.len(), paused: false }
        } else {
            self.typo_check(state, d)
        }
    }

    fn begin_char(&mut self, state: &mut TypingState, d: &Draws) -> (a: TypingAction)
        requires
            old(self).index <= old(self).chars.len(),
        ensures
            (StepModel { run: final(self).model(), flags: final(state).flags(), action: a })
                == begin_char(old(self).model(), old(state).flags(), *d),
    {
        if state.cancel || self.index >= self.chars.len() {
            self.stop(state)
        } else {
            self.pause_check(state, d)
        }
    }

    fn next_char(&mut self, state: &mut TypingState, d: &Draws) -> (a: TypingAction)
        requires
            old(self).index < old(self).chars.len(),
        ensures
            (StepModel { run: final(self).model(), flags: final(state).flags(), action: a })
                == next_char(old(self).model(), old(state).flags(), *d),
    {
        self.index = self.index + 1;
        self.stage = Stage::Start;
        self.begin_char(state, d)
    }

    fn think_step(&mut self, state: &mut TypingState, d: &Draws) -> (a: TypingAction)
        requires
            old(self).index < old(self).chars.len(),
            old(self).think_ms <= 750,
        ensures
            (StepModel { run: final(self).model(), flags: final(state).flags(), action: a })
                == think_step(old(self).model(), old(state).flags(), *d),
    {
        if self.thought_ms < self.think_ms {
            if state.cancel {
                self.next_char(state, d)
            } else {
                self.thought_ms = self.thought_ms + 50;
                self.stage = Stage::ThinkLoop;
                TypingAction::Sleep { ms: 50 }
            }
        } else {
            self.next_char(state, d)
        }
    }

    /// One step of the loop with the given random draws: reads the flags,
    /// moves the run on and returns what to do, exactly as `transition`
    /// says.
    pub fn step(&mut self, state: &mut TypingState, d: &Draws) -> (a: TypingAction)
        requires
            old(self).model().stage == Stage::Finished || run_inv(old(self).model(), old(state).flags()),
            draws_ok(*d, old(self).model().jitter_ms),
        ensures
            (StepModel { run: final(self).model(), flags: final(state).flags(), action: a })
                == transition(old(self).model(), old(state).flags(), *d),
            final(self).model().stage == Stage::Finished || run_inv(final(self).model(), final(state).flags()),
    {
        match self.stage {
            Stage::Start => self.begin_char(state, d),
            Stage::PauseSleep => {
                self.stage = Stage::PauseWake;
                TypingAction::Sleep { ms: 80 }
            },
            Stage::PauseWake => {
                if state.cancel {
                    self.stop(state)
                } else {
                    self.pause_check(state, d)
                }
            },
            Stage::TypoCheck => self.typo_check(state, d),
            Stage::TypoSleep => {
                self.stage = Stage::TypoFix;
                TypingAction::Sleep { ms: d.typo_ms }
            },
            Stage::TypoFix => {
                if !state.cancel {
                    self.stage = Stage::TypoFixSleep;
                    TypingAction::Backspace
                } else {
                    self.type_current(state)
                }
            },
            Stage::TypoFixSleep => {
                self.stage = Stage::TypeChar;
                TypingAction::Sleep { ms: d.fix_ms }
            },
            Stage::TypeChar => self.type_current(state),
            Stage::Typed => {
                state.progress = self.index + 1;
                self.stage = Stage::Delay;
                TypingAction::Report { current: self.index + 1, total: self.chars.len(), paused: false }
            },
            Stage::Delay => {
                self.stage = Stage::Think;
                if self.human {
                    TypingAction::HumanDelay { ch: self.chars[self.index], base_ms: self.base_ms }
                } else {
                    let extra = if self.jitter_ms > 0 { d.extra_ms } else { 0 };
                    TypingAction::Sleep { ms: self.base_ms + extra }
                }
            },
            Stage::Think => {
                if self.human && d.think {
                    self.think_ms = d.think_ms;
                    self.thought_ms = 0;
                    self.think_step(state, d)
                } else {
                    self.next_char(state, d)
                }
            },
            Stage::ThinkLoop => self.think_step(state, d),
            Stage::Finished => TypingAction::Done,
        }
    }

    /// Draws what the next step may need and takes it.
    pub fn next_action(&mut self, state: &mut TypingState) -> (a: TypingAction)
        requires
            old(self).model().stage == Stage::Finished || run_inv(old(self).model(), old(state).flags()),
        ensures
            exists|d: Draws|
                draws_ok(d, old(self).model().jitter_ms) && (StepModel {
                    run: final(self).model(),
                    flags: final(state).flags(),
                    action: a,
                }) == transition(old(self).model(), old(state).flags(), d),
            final(self).model().stage == Stage::Finished || run_inv(final(self).model(), final(state).flags()),
    {
        let d = self.roll();
        let a = self.step(state, &d);
        assert(draws_ok(d, old(self).model().jitter_ms));
        a
    }
}


/// The run and the flags after one step per draw, the flags left to the
/// run alone.
pub open spec fn run_after(r: RunModel, f: Flags, ds: Seq<Draws>) -> (RunModel, Flags)
    decreases ds.len(),
{
    if ds.len() == 0 {
        (r, f)
    } else {
        let s = transition(r, f, ds[0]);
        run_after(s.run, s.flags, ds.drop_first())
    }
}

/// Law: a step keeps the run consistent with its flags, leaves the cancel
/// and pause flags alone, moves progress forward by at most one character
/// and never past the text's length, and reports no position past it.
pub proof fn law_step_progress(r: RunModel, f: Flags, d: Draws)
    requires
        run_inv(r, f),
        draws_ok(d, r.jitter_ms),
    ensures
        ({
            let s = transition(r, f, d);
            &&& s.run.stage == Stage::Finished || run_inv(s.run, s.flags)
            &&& s.flags.cancel == f.cancel && s.flags.pause == f.pause
            &&& s.flags.total == f.total
            &&& s.flags.progress == f.progress || s.flags.progress == f.progress + 1
            &&& s.flags.progress <= s.flags.total
            &&& s.action matches TypingAction::Report { current, total, .. } ==> current <= total
                && total == f.total
            &&& s.run.chars == r.chars
        }),
{
}

/// Law: the characters of the text are typed in order, each at its own
/// position: a step that types the text's character leaves the run on that
/// character, and the next step counts it in the progress and reports it.
pub proof fn law_types_text_in_order(r: RunModel, f: Flags, d: Draws)
    requires
        run_inv(r, f),
    ensures
        ({
            let s = transition(r, f, d);
            s.run.stage == Stage::Typed ==> s.run.index < r.chars.len() && (s.run.index == r.index
                || s.run.index == r.index + 1) && s.action == (TypingAction::Type {
                ch: r.chars[s.run.index as int],
            })
        }),
        r.stage == Stage::Typed ==> ({
            let s = transition(r, f, d);
            &&& s.flags.progress == r.index + 1
            &&& s.action == (TypingAction::Report {
                current: (r.index + 1) as usize,
                total: r.chars.len() as usize,
                paused: false,
            })
        }),
{
}

/// Law: while the pause flag is up (and no cancel), a run waiting at a
/// character reports the pause once and then only sleeps: it sends no key
/// and stays at the same character.
pub proof fn law_pause_holds_keys(r: RunModel, f: Flags, d: Draws)
    requires
        run_inv(r, f),
        f.pause,
        !f.cancel,
        r.stage == Stage::Start && r.index < r.chars.len() || r.stage == Stage::PauseSleep
            || r.stage == Stage::PauseWake,
    ensures
        ({
            let s = transition(r, f, d);
            &&& s.action == (TypingAction::Sleep { ms: 80 }) || s.action == (TypingAction::Report {
                current: r.index as usize,
                total: r.chars.len() as usize,
                paused: true,
            })
            &&& s.run.stage == Stage::PauseSleep || s.run.stage == Stage::PauseWake
            &&& s.run.index == r.index
            &&& s.flags == f
        }),
{
}

/// Law: after a reported pause, the resume is reported at the same
/// position before anything else happens, and no key is ever sent while a
/// pause is reported and not yet resumed.
pub proof fn law_resume_reported_before_keys(r: RunModel, f: Flags, d: Draws)
    requires
        run_inv(r, f),
    ensures
        (r.stage == Stage::PauseWake && r.last_paused && !f.pause && !f.cancel) ==> ({
            let s = transition(r, f, d);
            &&& s.action == (TypingAction::Report {
                current: r.index as usize,
                total: r.chars.len() as usize,
                paused: false,
            })
            &&& !s.run.last_paused
        }),
        ({
            let s = transition(r, f, d);
            (s.action is Type || s.action is Backspace) ==> !r.last_paused && !s.run.last_paused
        }),
{
}

/// The most steps a cancelled run can still take from a stage.
pub open spec fn cancel_budget(stage: Stage) -> nat {
    match stage {
        Stage::Finished => 0,
        Stage::Start | Stage::PauseWake | Stage::Think | Stage::ThinkLoop => 1,
        Stage::PauseSleep | Stage::Delay => 2,
        Stage::Typed => 3,
        Stage::TypoFix | Stage::TypeChar => 4,
        Stage::TypoSleep | Stage::TypoFixSleep => 5,
        Stage::TypoCheck => 6,
    }
}

proof fn lemma_cancel_step(r: RunModel, f: Flags, d: Draws)
    requires
        run_inv(r, f),
        f.cancel,
        r.stage != Stage::Finished,
        draws_ok(d, r.jitter_ms),
    ensures
        ({
            let s = transition(r, f, d);
            &&& s.run.stage == Stage::Finished || (run_inv(s.run, s.flags) && cancel_budget(
                s.run.stage,
            ) < cancel_budget(r.stage))
            &&& s.run.stage == Stage::Finished ==> !s.flags.active
            &&& s.flags.cancel
            &&& s.run.index == r.index || (s.run.index == r.index + 1 && s.run.stage
                == Stage::Finished)
            &&& s.flags.progress <= r.index + 1
        }),
{
}

proof fn lemma_cancel_steps(r: RunModel, f: Flags, ds: Seq<Draws>, start: nat)
    requires
        r.stage == Stage::Finished || run_inv(r, f),
        r.stage == Stage::Finished ==> !f.active,
        f.cancel,
        cancel_budget(r.stage) <= ds.len(),
        r.index <= start + 1,
        r.index == start + 1 ==> r.stage == Stage::Finished,
        f.progress <= start + 1,
        forall|k: int| 0 <= k < ds.len() ==> draws_ok(#[trigger] ds[k], r.jitter_ms),
    ensures
        run_after(r, f, ds).0.stage == Stage::Finished,
        !run_after(r, f, ds).1.active,
        run_after(r, f, ds).1.progress <= start + 1,
    decreases ds.len(),
{
    if ds.len() == 0 {
        assert(r.stage == Stage::Finished);
    } else {
        let s = transition(r, f, ds[0]);
        if r.stage != Stage::Finished {
            lemma_cancel_step(r, f, ds[0]);
            lemma_step_keeps_settings(r, f, ds[0]);
        }
        let rest = ds.drop_first();
        assert forall|k: int| 0 <= k < rest.len() implies draws_ok(#[trigger] rest[k], s.run.jitter_ms) by {
            assert(rest[k] == ds[k + 1]);
        }
        lemma_cancel_steps(s.run, s.flags, rest, start);
    }
}

proof fn lemma_step_keeps_settings(r: RunModel, f: Flags, d: Draws)
    ensures
        transition(r, f, d).run.jitter_ms == r.jitter_ms,
        transition(r, f, d).run.chars == r.chars,
        transition(r, f, d).run.human == r.human,
{
}

/// Law: a cancel is obeyed within six steps: with the cancel flag up, the
/// run is done after six steps, the session is no longer active, and at
/// most the character in hand is completed.
pub proof fn law_cancel_stops_run(r: RunModel, f: Flags, ds: Seq<Draws>)
    requires
        run_inv(r, f),
        r.stage != Stage::Finished,
        f.cancel,
        ds.len() == 6,
        forall|k: int| 0 <= k < ds.len() ==> draws_ok(#[trigger] ds[k], r.jitter_ms),
    ensures
        run_after(r, f, ds).0.stage == Stage::Finished,
        !run_after(r, f, ds).1.active,
        run_after(r, f, ds).1.progress <= r.index + 1,
{
    lemma_cancel_steps(r, f, ds, r.index);
}

/// The actions of one step per draw, the flags left to the run alone.
pub open spec fn actions_after(r: RunModel, f: Flags, ds: Seq<Draws>) -> Seq<TypingAction>
    decreases ds.len(),
{
    if ds.len() == 0 {
        Seq::empty()
    } else {
        let s = transition(r, f, ds[0]);
        seq![s.action] + actions_after(s.run, s.flags, ds.drop_first())
    }
}

/// Law: a typo is corrected: after the wrong key the run waits, erases it
/// with a backspace, waits again and types the right character, unless a
/// cancel comes first.
pub proof fn law_typo_is_corrected(r: RunModel, f: Flags, ds: Seq<Draws>)
    requires
        run_inv(r, f),
        r.stage == Stage::TypoSleep,
        !f.cancel,
        ds.len() == 4,
    ensures
        actions_after(r, f, ds) == seq![
            TypingAction::Sleep { ms: ds[0].typo_ms },
            TypingAction::Backspace,
            TypingAction::Sleep { ms: ds[2].fix_ms },
            TypingAction::Type { ch: r.chars[r.index as int] },
        ],
{
    reveal_with_fuel(actions_after, 5);
    let s0 = transition(r, f, ds[0]);
    let s1 = transition(s0.run, s0.flags, ds[1]);
    let s2 = transition(s1.run, s1.flags, ds[2]);
    let s3 = transition(s2.run, s2.flags, ds[3]);
    let d1 = ds.drop_first();
    let d2 = d1.drop_first();
    let d3 = d2.drop_first();
    assert(d1[0] == ds[1] && d2[0] == ds[2] && d3[0] == ds[3]);
    let d4 = d3.drop_first();
    assert(d4.len() == 0);
    assert(actions_after(s3.run, s3.flags, d4) == Seq::<TypingAction>::empty());
    assert(actions_after(s2.run, s2.flags, d3) =~= seq![s3.action]);
    assert(actions_after(s1.run, s1.flags, d2) =~= seq![s2.action, s3.action]);
    assert(actions_after(s0.run, s0.flags, d1) =~= seq![s1.action, s2.action, s3.action]);
    assert(actions_after(r, f, ds) =~= seq![s0.action, s1.action, s2.action, s3.action]);
}

/// Law: the neighbour relation of the keyboard rows is symmetric and
/// irreflexive, and it relates lower-case letters only: each neighbour of a
/// key is another lower-case letter that has the key among its own
/// neighbours.
pub proof fn law_neighbors_symmetric(c: char, i: int)
    requires
        0 <= i < neighbor_row(c).len(),
    ensures
        'a' <= c <= 'z',
        'a' <= neighbor_row(c)[i] <= 'z',
        neighbor_row(c)[i] != c,
        neighbor_row(neighbor_row(c)[i]).contains(c),
{
    let n = neighbor_row(c)[i];
    let row = neighbor_row(n);
    assert((row.len() > 0 && row[0] == c) || (row.len() > 1 && row[1] == c) || (row.len() > 2
        && row[2] == c) || (row.len() > 3 && row[3] == c) || (row.len() > 4 && row[4] == c) || (
    row.len() > 5 && row[5] == c));
}

/// Law: a typo is possible exactly on ASCII letters, and the wrong key is
/// another letter of the same case.
pub proof fn law_typo_is_letter_of_same_case(c: char, i: int)
    ensures
        neighbor_row(to_lower(c)).len() > 0 <==> ('a' <= c <= 'z' || 'A' <= c <= 'Z'),
        neighbor_at(c, i) matches Some(n) ==> n != c && ('a' <= c <= 'z' ==> 'a' <= n <= 'z') && (
        'A' <= c <= 'Z' ==> 'A' <= n <= 'Z'),
{
    let l = to_lower(c);
    assert('a' <= c <= 'z' || 'A' <= c <= 'Z' ==> 'a' <= l <= 'z');
    assert(!('a' <= c <= 'z' || 'A' <= c <= 'Z') ==> l == c);
    if 0 <= i < neighbor_row(l).len() {
        law_neighbors_symmetric(l, i);
    }
}

} // verus!
