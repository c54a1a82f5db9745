//! Verified core of the Writing Agent desktop overlay: the Gemini request and
//! reply rules, screenshot cropping and encoding, the typing state machine and
//! the keyboard-capture decisions.

use vstd::prelude::*;

pub mod capture;
pub mod codec;
pub mod gemini;
pub mod hotkeys;
pub mod keys;
pub mod reply;
pub mod text;
pub mod typing;

verus! {

} // verus!
