# wisper

The decision logic of Wisper, a push-to-talk dictation tool (hold a hotkey,
speak, release; the transcription is typed at the cursor), as a Verus-verified
library, with the desktop shell around it.

- `src/` — the verified library
  - `flow.rs` — the recorder (hotkey hold, tap-through replay, 60-second limit)
    and the pipeline (encode → transcribe, retried once → optional rewrite →
    inject → report) as state machines, with their laws
  - `keywords.rs` — trailing trigger phrases ("rephrase", "rewrite it", "rephrase as
    email", "format as bullet points", …) and the format they name
  - `prompt.rs` — the system prompts for the rewrite
  - `api.rs` — requests to OpenAI / Azure OpenAI as plain values, and replies
  - `audio.rs` — WAV framing of 16-bit PCM, device and stream-format choice,
    microphone permission
  - `injection.rs` — platforms, macOS key codes and AppleScript
  - `text.rs` — character classes, trimming, comparison, decimal numbers
- `app/` — the Tauri application: windows, tray, microphone (cpal), HTTP
  (reqwest), processes; it performs what the library's machines ask for
- `tests/` — tests of the library
