//! Decisions of the dictation pipeline: when to start and stop recording, which
//! audio is long enough, Whisper's decoding options, when to translate, which
//! LLM step runs, and the text captured from the focused application.

use vstd::prelude::*;
use std::sync::atomic::{AtomicBool, Ordering};
use crate::text::{
    eq_ignore_ascii_case, eq_ignore_case, from_chars, is_blank, lower,
    owned, str_eq, to_chars, trim, trimmed, trimmed_lower, chars_eq, lower_vec, trim_vec,
};
use crate::model::ModelTier;

verus! {

/// Kind of recording session.
#[derive(Debug, Clone, Copy, PartialEq, Eq, Structural)]
pub enum RecordingMode {
    /// Dictation: the transcript is inserted.
    Normal,
    /// Voice assistant: an LLM answers the spoken instruction.
    AiAssist,
}

// ---------------------------------------------------------------------------
// Recording
// ---------------------------------------------------------------------------

/// What a start request does.
#[derive(Debug, Clone, Copy, PartialEq, Eq, Structural)]
pub enum StartDecision {
    /// A transcription or paste is still running: refused.
    Busy,
    /// A session is already recording: nothing to do.
    AlreadyRecording,
    /// Open the microphone.
    Start,
}

pub fn start_decision(pipeline_busy: bool, recording: bool) -> (r: StartDecision)
    ensures
        r == (if pipeline_busy {
            StartDecision::Busy
        } else if recording {
            StartDecision::AlreadyRecording
        } else {
            StartDecision::Start
        }),
{
    if pipeline_busy {
        StartDecision::Busy
    } else if recording {
        StartDecision::AlreadyRecording
    } else {
        StartDecision::Start
    }
}

/// The error a refused start gives.
pub fn busy_error() -> (r: String)
    ensures
        r@ == "Transcription encore en cours."@,
{
    owned("Transcription encore en cours.")
}

/// The push-to-talk shortcut toggles: the first press starts, the second stops.
pub fn toggle_stops(recording: bool) -> (r: bool)
    ensures
        r == recording,
{
    recording
}

/// Fewest samples worth transcribing at `rate` Hz: 40 ms, and never under 320.
pub open spec fn min_samples(rate: int) -> int {
    if rate / 25 > 320 { rate / 25 } else { 320 }
}

pub fn min_samples_for_rate(rate: u32) -> (r: usize)
    ensures
        r == min_samples(rate as int),
{
    let q: usize = (rate / 25) as usize;
    if q > 320 { q } else { 320 }
}

/// A recording is transcribed only when it holds at least `min_samples` samples.
pub fn audio_long_enough(n_samples: usize, rate: u32) -> (r: bool)
    ensures
        r == (n_samples >= min_samples(rate as int)),
{
    n_samples >= min_samples_for_rate(rate)
}

/// An audio file (resampled to 16 kHz) is transcribed only from 640 samples on.
pub fn file_audio_long_enough(n_samples_16k: usize) -> (r: bool)
    ensures
        r == (n_samples_16k >= min_samples(16000)),
{
    n_samples_16k >= min_samples_for_rate(16000)
}

/// The error of a file transcription cancelled by the user.
pub open spec fn cancel_message() -> Seq<char> {
    "Transcription annul\u{e9}e."@
}

pub fn cancel_result(cancelled: bool) -> (r: Result<(), String>)
    ensures
        cancelled ==> (r matches Err(e) && e@ == cancel_message()),
        !cancelled ==> r is Ok,
{
    if cancelled {
        Err(owned("Transcription annul\u{e9}e."))
    } else {
        Ok(())
    }
}

/// Reads the cancel flag of a file transcription (set from another thread).
pub fn check_file_transcribe_cancel(cancel: &AtomicBool) -> (r: Result<(), String>)
    ensures
        r matches Err(e) ==> e@ == cancel_message(),
{
    let c = cancel.load(Ordering::Acquire);
    cancel_result(c)
}

// ---------------------------------------------------------------------------
// Whisper
// ---------------------------------------------------------------------------

/// Decoding options of a Whisper run.
#[derive(Debug, Clone, Copy, PartialEq, Eq, Structural)]
pub struct DecodeParams {
    /// Candidates of the greedy sampler.
    pub best_of: i32,
    pub single_segment: bool,
    pub no_context: bool,
}

/// `fast`: 1 candidate, one segment, no context; `accurate`: 5 candidates;
/// anything else (balanced): 3 candidates.
pub open spec fn decode_params_for(profile: Seq<char>) -> DecodeParams {
    let p = lower(trim(profile));
    if p == "fast"@ {
        DecodeParams { best_of: 1, single_segment: true, no_context: true }
    } else if p == "accurate"@ {
        DecodeParams { best_of: 5, single_segment: false, no_context: false }
    } else {
        DecodeParams { best_of: 3, single_segment: false, no_context: false }
    }
}

pub fn whisper_decode_params(decode_profile: &str) -> (r: DecodeParams)
    ensures
        r == decode_params_for(decode_profile@),
{
    let p = to_chars(decode_profile);
    let t = trim_vec(&p);
    let l = lower_vec(&t);
    if crate::text::chars_eq_str(&l, "fast") {
        DecodeParams { best_of: 1, single_segment: true, no_context: true }
    } else if crate::text::chars_eq_str(&l, "accurate") {
        DecodeParams { best_of: 5, single_segment: false, no_context: false }
    } else {
        DecodeParams { best_of: 3, single_segment: false, no_context: false }
    }
}

/// Whisper gets no language (auto-detection) for `auto`, else the setting as is.
pub fn whisper_language(language: &str) -> (r: Option<String>)
    ensures
        language@ == "auto"@ ==> r is None,
        language@ != "auto"@ ==> (r matches Some(l) && l@ == language@),
{
    if str_eq(language, "auto") {
        None
    } else {
        Some(owned(language))
    }
}

/// Whisper's own translate task is used for a translation into English, except
/// with large-v3-turbo.
pub open spec fn whisper_translates(translate_enabled: bool, target: Seq<char>, tier: ModelTier) -> bool {
    translate_enabled && eq_ignore_case(target, "en"@) && tier != ModelTier::LargeV3Turbo
}

pub fn whisper_translates_to_english(translate_enabled: bool, target: &str, tier: ModelTier) -> (r: bool)
    ensures
        r == whisper_translates(translate_enabled, target@, tier),
{
    translate_enabled && eq_ignore_ascii_case(target, "en") && tier != ModelTier::LargeV3Turbo
}

/// Threads for Whisper: the available parallelism (in 32 bits), clamped to 1..=8.
pub open spec fn thread_count_for(available: Option<usize>) -> i32 {
    let n: i32 = match available {
        Some(n) => n as i32,
        None => 1,
    };
    if n < 1 {
        1
    } else if n > 8 {
        8
    } else {
        n
    }
}

pub fn thread_count_from(available: Option<usize>) -> (r: i32)
    ensures
        r == thread_count_for(available),
{
    let n: i32 = match available {
        Some(n) => {
            #[verifier::truncate]
            let v: i32 = n as i32;
            v
        },
        None => 1,
    };
    if n < 1 {
        1
    } else if n > 8 {
        8
    } else {
        n
    }
}

// ---------------------------------------------------------------------------
// Translation after speech-to-text
// ---------------------------------------------------------------------------

/// Language of the transcript: the detected one (else `en`) under `auto`, else the setting.
/// Speech-to-text runs on Groq's cloud only in the `cloud-groq` mode; every
/// other mode runs Whisper locally.
pub fn stt_uses_groq(stt_mode: &str) -> (r: bool)
    ensures
        r == (stt_mode@ == "cloud-groq"@),
{
    str_eq(stt_mode, "cloud-groq")
}

pub open spec fn source_language(language: Seq<char>, detected: Option<Seq<char>>) -> Seq<char> {
    if language == "auto"@ {
        match detected {
            Some(d) => d,
            None => "en"@,
        }
    } else {
        language
    }
}

/// (source, target) of the translation to run after speech-to-text, if any: the
/// transcript is not empty, translation is on and Whisper did not already
/// translate, the target is not blank and differs from the source (ASCII case aside).
pub open spec fn translation_after_stt(
    raw: Seq<char>,
    language: Seq<char>,
    detected: Option<Seq<char>>,
    translate_enabled: bool,
    target: Seq<char>,
    whisper_translated: bool,
) -> Option<(Seq<char>, Seq<char>)> {
    let src = source_language(language, detected);
    let tgt = trim(target);
    if raw.len() > 0 && translate_enabled && !whisper_translated && tgt.len() > 0 && lower(src)
        != lower(tgt) {
        Some((src, tgt))
    } else {
        None
    }
}

pub fn translation_request(
    raw: &str,
    language: &str,
    detected: Option<String>,
    translate_enabled: bool,
    target: &str,
    whisper_translated: bool,
) -> (r: Option<(String, String)>)
    ensures
        match (r, translation_after_stt(
            raw@,
            language@,
            match detected {
                Some(d) => Some(d@),
                None => None,
            },
            translate_enabled,
            target@,
            whisper_translated,
        )) {
            (Some((a, b)), Some((x, y))) => a@ == x && b@ == y,
            (None, None) => true,
            _ => false,
        },
{
    if to_chars(raw).len() == 0 || !translate_enabled || whisper_translated {
        return None;
    }
    let src = if str_eq(language, "auto") {
        match detected {
            Some(d) => d,
            None => owned("en"),
        }
    } else {
        owned(language)
    };
    let tgt = trimmed(target);
    let tv = to_chars(tgt.as_str());
    if tv.len() == 0 {
        return None;
    }
    let ls = lower_vec(&to_chars(src.as_str()));
    let lt = lower_vec(&tv);
    if chars_eq(&ls, &lt) {
        None
    } else {
        Some((src, tgt))
    }
}

/// The transcript counts as translated when translation is on and either Whisper
/// translated or the translation changed the text.
pub fn transcript_was_translated(translate_enabled: bool, whisper_translated: bool, text: &str, raw: &str) -> (r: bool)
    ensures
        r == (translate_enabled && (whisper_translated || text@ != raw@)),
{
    translate_enabled && (whisper_translated || !str_eq(text, raw))
}

// ---------------------------------------------------------------------------
// LLM step
// ---------------------------------------------------------------------------

/// Which LLM step follows the transcription.
#[derive(Debug, Clone, Copy, PartialEq, Eq, Structural)]
pub enum LlmStep {
    /// No LLM call.
    Skip,
    /// Answer the spoken instruction (voice assistant).
    Assist,
    /// Rewrite the transcript with the active profile's prompt.
    Reformulate,
}

pub open spec fn llm_step_for(mode: RecordingMode, active_ok: bool, api_key: Seq<char>, enabled: bool) -> LlmStep {
    if mode == RecordingMode::AiAssist {
        if active_ok && trim(api_key).len() > 0 {
            LlmStep::Assist
        } else {
            LlmStep::Skip
        }
    } else if enabled && trim(api_key).len() > 0 && active_ok {
        LlmStep::Reformulate
    } else {
        LlmStep::Skip
    }
}

pub fn llm_step(mode: RecordingMode, active_ok: bool, api_key: &str, enabled: bool) -> (r: LlmStep)
    ensures
        r == llm_step_for(mode, active_ok, api_key@, enabled),
{
    let has_key = !is_blank(api_key);
    match mode {
        RecordingMode::AiAssist => if active_ok && has_key {
            LlmStep::Assist
        } else {
            LlmStep::Skip
        },
        RecordingMode::Normal => if enabled && has_key && active_ok {
            LlmStep::Reformulate
        } else {
            LlmStep::Skip
        },
    }
}

// ---------------------------------------------------------------------------
// Text selected in the focused application
// ---------------------------------------------------------------------------

/// Largest selection sent to the LLM, in characters.
pub open spec fn selection_limit() -> int {
    48000
}

/// A selection longer than the limit keeps its first 48 000 characters and a marker.
pub open spec fn truncated_selection(s: Seq<char>) -> Seq<char> {
    if s.len() > selection_limit() {
        s.take(selection_limit()) + "\n\u{2026} [truncated]"@
    } else {
        s
    }
}

/// The selection handed to the assistant keeps at most the first 48 000
/// characters of what was copied, followed by the truncation marker when the
/// copy was longer; shorter copies are kept whole.
pub proof fn lemma_selection_bounded(s: Seq<char>)
    ensures
        truncated_selection(s).len() <= selection_limit() + "\n\u{2026} [truncated]"@.len(),
        truncated_selection(s).len() <= s.len() + "\n\u{2026} [truncated]"@.len(),
        s.len() <= selection_limit() ==> truncated_selection(s) == s,
        s.len() > selection_limit() ==> truncated_selection(s).take(selection_limit()) == s.take(
            selection_limit(),
        ),
{
    let t = truncated_selection(s);
    if s.len() > selection_limit() {
        assert(t.take(selection_limit()) =~= s.take(selection_limit()));
    }
}

/// The simulated copy changed nothing: copy once more.
pub fn selection_needs_second_copy(before: &str, after: &str) -> (r: bool)
    ensures
        r == (trim(after@) == trim(before@)),
{
    let a = trimmed(after);
    let b = trimmed(before);
    str_eq(a.as_str(), b.as_str())
}

/// The selection is what the clipboard holds after the simulated copy, when that
/// is not blank and differs (trimmed) from what it held before; otherwise there
/// is no selection (the clipboard may hold something from another session).
pub open spec fn selection_of(before: Seq<char>, after: Seq<char>) -> Option<Seq<char>> {
    if trim(after).len() == 0 || trim(after) == trim(before) {
        None
    } else {
        Some(truncated_selection(after))
    }
}

pub fn selection_from_clipboard(before: &str, after: &str) -> (r: Option<String>)
    ensures
        match (r, selection_of(before@, after@)) {
            (Some(a), Some(b)) => a@ == b,
            (None, None) => true,
            _ => false,
        },
{
    let a = trimmed(after);
    let b = trimmed(before);
    if to_chars(a.as_str()).len() == 0 || str_eq(a.as_str(), b.as_str()) {
        return None;
    }
    let v = to_chars(after);
    if v.len() > 48000 {
        let head = crate::text::sub_chars(&v, 0, 48000);
        let mut s = from_chars(head.as_slice());
        s.append("\n\u{2026} [truncated]");
        assert(head@ =~= v@.take(48000));
        Some(s)
    } else {
        Some(owned(after))
    }
}


// ---------------------------------------------------------------------------
// The dictation session as a state machine
// ---------------------------------------------------------------------------

/// The state of the dictation session that the shortcuts, the HUD and the
/// transcription worker share.
#[derive(Debug)]
pub struct SessionState {
    /// A microphone stream is open.
    pub recording: bool,
    /// The HUD shows the microphone level.
    pub level_meter: bool,
    pub mode: RecordingMode,
    /// Text selected when an assistant session started.
    pub selection: Option<String>,
    /// Window to focus again before pasting.
    pub paste_target: Option<usize>,
    /// A transcription, LLM step or paste runs on the worker.
    pub busy: bool,
}

/// `SessionState` as plain values.
pub struct SessionView {
    pub recording: bool,
    pub level_meter: bool,
    pub mode: RecordingMode,
    pub selection: Option<Seq<char>>,
    pub paste_target: Option<usize>,
    pub busy: bool,
}

impl View for SessionState {
    type V = SessionView;

    open spec fn view(&self) -> SessionView {
        SessionView {
            recording: self.recording,
            level_meter: self.level_meter,
            mode: self.mode,
            selection: match self.selection {
                Some(t) => Some(t@),
                None => None,
            },
            paste_target: self.paste_target,
            busy: self.busy,
        }
    }
}

/// What happens to the session.
#[derive(Debug, Clone, Copy, PartialEq, Eq, Structural)]
pub enum SessionEvent {
    /// A shortcut or the UI asks to start recording in this mode; the window in
    /// front at that moment, if any.
    Start(RecordingMode, Option<usize>),
    /// The microphone could not be opened.
    MicrophoneFailed,
    /// The microphone stream is open.
    MicrophoneOpened,
    /// A stop was asked for; the number of samples recorded and their rate.
    Stop(usize, u32),
    /// Escape: drop the recording.
    Cancel,
    /// The worker is done with a recording.
    JobFinished,
}

/// What the application does after an event.
#[derive(Debug, Clone, Copy, PartialEq, Eq, Structural)]
pub enum SessionAction {
    Nothing,
    /// Refuse the start: a transcription is still running.
    Refuse,
    /// Open the microphone and show the HUD.
    OpenMicrophone,
    /// Hide the HUD and show it idle.
    BackToIdle,
    /// Hand the recording to the worker, in this mode.
    Transcribe(RecordingMode),
}

/// The session after an event, and what to do.
pub open spec fn next_session(s: SessionView, e: SessionEvent) -> (SessionView, SessionAction) {
    match e {
        SessionEvent::Start(mode, focus) => if s.busy {
            (s, SessionAction::Refuse)
        } else if s.recording {
            (s, SessionAction::Nothing)
        } else {
            (
                SessionView {
                    level_meter: true,
                    mode,
                    selection: None,
                    paste_target: if focus is Some { focus } else { s.paste_target },
                    ..s
                },
                SessionAction::OpenMicrophone,
            )
        },
        SessionEvent::MicrophoneFailed => (
            SessionView {
                level_meter: false,
                mode: RecordingMode::Normal,
                selection: if s.mode == RecordingMode::AiAssist { None } else { s.selection },
                paste_target: None,
                ..s
            },
            SessionAction::Nothing,
        ),
        SessionEvent::MicrophoneOpened => (SessionView { recording: true, ..s }, SessionAction::Nothing),
        SessionEvent::Stop(n, rate) => if !s.recording {
            (
                SessionView { level_meter: false, paste_target: None, mode: RecordingMode::Normal, ..s },
                SessionAction::BackToIdle,
            )
        } else if n < min_samples(rate as int) {
            (
                SessionView {
                    recording: false,
                    level_meter: false,
                    selection: None,
                    mode: RecordingMode::Normal,
                    ..s
                },
                SessionAction::BackToIdle,
            )
        } else {
            (
                SessionView { recording: false, level_meter: false, busy: true, ..s },
                SessionAction::Transcribe(s.mode),
            )
        },
        SessionEvent::Cancel => if !s.recording {
            (s, SessionAction::Nothing)
        } else {
            (
                SessionView {
                    recording: false,
                    level_meter: false,
                    selection: None,
                    paste_target: None,
                    mode: RecordingMode::Normal,
                    ..s
                },
                SessionAction::BackToIdle,
            )
        },
        SessionEvent::JobFinished => (
            SessionView { busy: false, mode: RecordingMode::Normal, ..s },
            SessionAction::BackToIdle,
        ),
    }
}

impl SessionState {
    /// Idle: nothing recording, nothing running.
    pub fn new() -> (r: Self)
        ensures
            !r.recording && !r.level_meter && !r.busy,
            r.mode == RecordingMode::Normal,
            r.selection is None,
            r.paste_target is None,
    {
        SessionState {
            recording: false,
            level_meter: false,
            mode: RecordingMode::Normal,
            selection: None,
            paste_target: None,
            busy: false,
        }
    }

    /// Applies an event (see `next_session`).
    pub fn step(&mut self, e: SessionEvent) -> (a: SessionAction)
        ensures
            (final(self)@, a) == next_session(old(self)@, e),
    {
        match e {
            SessionEvent::Start(mode, focus) => {
                match start_decision(self.busy, self.recording) {
                    StartDecision::Busy => SessionAction::Refuse,
                    StartDecision::AlreadyRecording => SessionAction::Nothing,
                    StartDecision::Start => {
                        self.level_meter = true;
                        self.mode = mode;
                        self.selection = None;
                        if focus.is_some() {
                            self.paste_target = focus;
                        }
                        SessionAction::OpenMicrophone
                    },
                }
            },
            SessionEvent::MicrophoneFailed => {
                self.level_meter = false;
                if self.mode == RecordingMode::AiAssist {
                    self.selection = None;
                }
                self.mode = RecordingMode::Normal;
                self.paste_target = None;
                SessionAction::Nothing
            },
            SessionEvent::MicrophoneOpened => {
                self.recording = true;
                SessionAction::Nothing
            },
            SessionEvent::Stop(n, rate) => {
                if !self.recording {
                    self.level_meter = false;
                    self.paste_target = None;
                    self.mode = RecordingMode::Normal;
                    SessionAction::BackToIdle
                } else if !audio_long_enough(n, rate) {
                    self.recording = false;
                    self.level_meter = false;
                    self.selection = None;
                    self.mode = RecordingMode::Normal;
                    SessionAction::BackToIdle
                } else {
                    self.recording = false;
                    self.level_meter = false;
                    self.busy = true;
                    SessionAction::Transcribe(self.mode)
                }
            },
            SessionEvent::Cancel => {
                if !self.recording {
                    SessionAction::Nothing
                } else {
                    self.recording = false;
                    self.level_meter = false;
                    self.selection = None;
                    self.paste_target = None;
                    self.mode = RecordingMode::Normal;
                    SessionAction::BackToIdle
                }
            },
            SessionEvent::JobFinished => {
                self.busy = false;
                self.mode = RecordingMode::Normal;
                SessionAction::BackToIdle
            },
        }
    }

    /// Keeps the text selected at the start of an assistant session.
    pub fn keep_selection(&mut self, sel: String)
        ensures
            final(self)@ == (SessionView { selection: Some(sel@), ..old(self)@ }),
    {
        self.selection = Some(sel);
    }

    /// Hands the kept selection to the worker; none is left behind.
    pub fn take_selection(&mut self) -> (r: Option<String>)
        ensures
            final(self)@ == (SessionView { selection: None, ..old(self)@ }),
            match r {
                Some(t) => old(self)@.selection == Some(t@),
                None => old(self)@.selection is None,
            },
    {
        self.selection.take()
    }

    /// Hands the window to focus before pasting; none is left behind.
    pub fn take_paste_target(&mut self) -> (r: Option<usize>)
        ensures
            final(self)@ == (SessionView { paste_target: None, ..old(self)@ }),
            r == old(self)@.paste_target,
    {
        self.paste_target.take()
    }
}

} // verus!
