# writingagent

The verified core of Writing Agent, a translucent desktop overlay that asks
Gemini about what is on screen and types the answer into the focused window
keystroke by keystroke.

`src/` is the library, written in Verus with each function's behaviour
stated in its contract and proved:

- `gemini`: the `generateContent` request built from a chat (history roles,
  images before the prompt, default prompts, safety settings).
- `reply`: what a reply comes to (the answer, or the error shown for rate
  limits, unknown models, bad requests, auth failures, blocked prompts,
  empty answers), the error messages, and the chunks that animate an answer.
- `capture`, `codec`: screenshots as base64 PNG, and the region selection
  (the staged capture, clamping the selection, cropping).
- `typing`: the typing session's flags and the typing loop as a state
  machine with pause, resume, cancel and human-like typos.
- `keys`: the keyboard hook's policy, the text it forwards, the key events
  that type a character, window style bits and focus borrowing.
- `hotkeys`: the global hotkeys and the tray menu.
- `text`: trimming, comparison and decimal rendering of strings.

Laws that span functions are public proof functions named `law_*`.

`app/` is the Tauri application around the library: windows, tray, global
shortcuts, HTTP, screen grabbing and the Win32 calls. `tests/` runs the
library on concrete values.
