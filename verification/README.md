# Voxpill

A tray application for local dictation: push-to-talk records the microphone,
Whisper (local whisper.cpp, or Groq's cloud) transcribes, the text can be
translated (MyMemory) and rewritten by an LLM (Groq or OpenRouter), and the
result is pasted into the window that had the focus.

## Layout

- `src/` — the verified library (Verus). The application's rules and decisions
  are made here and stated in `requires` / `ensures` contracts; what they act on
  (windows, audio, files, network) stays in `app/`:
  - `text` — the character-level model of trimming, ASCII case folding, UTF-8
    lengths and decimal rendering, with executable versions;
  - `model` — Whisper model tiers: slugs, files, download URLs, parsing;
  - `config`, `profiles`, `normalize` — the settings file: defaults, normalisation
    of every field, distinct global shortcuts, profile ids and the active profile;
  - `pipeline` — what the dictation pipeline reads from the settings, the
    GPU-only tier fallback, and cycling through profiles;
  - `reformulate` — LLM chat requests and what is kept of their replies;
  - `translate` — cutting long texts into MyMemory requests, URLs and replies;
  - `groq_stt` — the WAV upload and the Groq transcription request and reply;
  - `session` — the dictation session as a state machine (start, stop, cancel,
    end of a job), Whisper options, translation and LLM decisions, selection
    capture;
  - `hardware`, `foreground` — the machine probe and the focused window;
  - `laws` — properties that span several functions, such as normalising twice
    changing nothing.
- `tests/` — tests of the library on concrete values.
- `app/` — the Tauri application around the library: windows, shortcuts,
  microphone, audio decoding, Whisper, HTTP and the settings file on disk.
