use voxpill::session::{SessionAction, SessionEvent, SessionState};
use voxpill::foreground::{capture_foreground_window, try_focus_window};
use voxpill::groq_stt::{
    finish_groq_transcription, normalize_model, pcm16k_mono_to_wav, plan_groq_transcription,
    GroqSttPlan,
};
use voxpill::hardware::{detect, hardware_profile, suggest_tier};
use voxpill::model::ModelTier;
use voxpill::session::{
    audio_long_enough, cancel_result, check_file_transcribe_cancel, file_audio_long_enough,
    llm_step, min_samples_for_rate, selection_from_clipboard, selection_needs_second_copy,
    start_decision, stt_uses_groq, thread_count_from, toggle_stops, transcript_was_translated, translation_request,
    whisper_decode_params, whisper_language, whisper_translates_to_english, LlmStep,
    RecordingMode, StartDecision,
};
use std::sync::atomic::AtomicBool;

#[test]
fn groq_models() {
    assert_eq!(normalize_model(" Whisper-Large-V3 "), Some("whisper-large-v3"));
    assert_eq!(normalize_model("whisper-large-v3-turbo"), Some("whisper-large-v3-turbo"));
    assert_eq!(normalize_model("whisper-1"), None);
}

#[test]
fn wav_file_layout() {
    let wav = pcm16k_mono_to_wav(&[1, -1, 0x1234]);
    assert_eq!(wav.len(), 44 + 6);
    assert_eq!(&wav[0..4], b"RIFF");
    assert_eq!(&wav[4..8], &(36u32 + 6).to_le_bytes());
    assert_eq!(&wav[8..16], b"WAVEfmt ");
    assert_eq!(&wav[16..20], &16u32.to_le_bytes());
    assert_eq!(&wav[20..22], &1u16.to_le_bytes());
    assert_eq!(&wav[22..24], &1u16.to_le_bytes());
    assert_eq!(&wav[24..28], &16000u32.to_le_bytes());
    assert_eq!(&wav[28..32], &32000u32.to_le_bytes());
    assert_eq!(&wav[32..34], &2u16.to_le_bytes());
    assert_eq!(&wav[34..36], &16u16.to_le_bytes());
    assert_eq!(&wav[36..40], b"data");
    assert_eq!(&wav[40..44], &6u32.to_le_bytes());
    assert_eq!(&wav[44..], &[0x01, 0x00, 0xff, 0xff, 0x34, 0x12]);
    assert_eq!(pcm16k_mono_to_wav(&[]).len(), 44);
}

#[test]
fn groq_request_plan() {
    match plan_groq_transcription("  ", "whisper-large-v3", 10, "fr") {
        GroqSttPlan::Fail(e) => assert_eq!(e, "Groq STT key missing."),
        _ => panic!("no key accepted"),
    }
    match plan_groq_transcription("k", "whisper-1", 10, "fr") {
        GroqSttPlan::Fail(e) => assert!(e.starts_with("Unsupported Groq STT model")),
        _ => panic!("bad model accepted"),
    }
    assert!(matches!(plan_groq_transcription("k", "whisper-large-v3", 0, "fr"), GroqSttPlan::Empty));
    match plan_groq_transcription(" k ", "WHISPER-LARGE-V3-TURBO", 5, " FR ") {
        GroqSttPlan::Send(q) => {
            assert_eq!(q.api_key, "k");
            assert_eq!(q.model, "whisper-large-v3-turbo");
            assert_eq!(q.language, Some("fr".to_string()));
        }
        _ => panic!("not sent"),
    }
    match plan_groq_transcription("k", "whisper-large-v3", 5, "AUTO") {
        GroqSttPlan::Send(q) => assert_eq!(q.language, None),
        _ => panic!("not sent"),
    }
}

#[test]
fn groq_reply() {
    assert_eq!(
        finish_groq_transcription(Some("  bonjour ".to_string()), Some(" FR ".to_string())),
        ("bonjour".to_string(), Some("fr".to_string()))
    );
    assert_eq!(finish_groq_transcription(None, Some("  ".to_string())), (String::new(), None));
}

#[test]
fn recording_decisions() {
    assert_eq!(start_decision(true, false), StartDecision::Busy);
    assert_eq!(start_decision(false, true), StartDecision::AlreadyRecording);
    assert_eq!(start_decision(false, false), StartDecision::Start);
    assert_eq!(min_samples_for_rate(48000), 1920);
    assert_eq!(min_samples_for_rate(16000), 640);
    assert_eq!(min_samples_for_rate(8000), 320);
    assert!(!audio_long_enough(1919, 48000));
    assert!(audio_long_enough(1920, 48000));
    assert!(file_audio_long_enough(640));
    assert!(!file_audio_long_enough(639));
    assert_eq!(cancel_result(true), Err("Transcription annulée.".to_string()));
    assert_eq!(cancel_result(false), Ok(()));
    assert_eq!(check_file_transcribe_cancel(&AtomicBool::new(true)), Err("Transcription annulée.".to_string()));
    assert_eq!(check_file_transcribe_cancel(&AtomicBool::new(false)), Ok(()));
    assert!(toggle_stops(true));
    assert!(!toggle_stops(false));
}

#[test]
fn speech_to_text_engine() {
    assert!(stt_uses_groq("cloud-groq"));
    assert!(!stt_uses_groq("local"));
    assert!(!stt_uses_groq(" cloud-groq"));
}

#[test]
fn whisper_options() {
    let f = whisper_decode_params(" FAST ");
    assert_eq!((f.best_of, f.single_segment, f.no_context), (1, true, true));
    let a = whisper_decode_params("accurate");
    assert_eq!((a.best_of, a.single_segment, a.no_context), (5, false, false));
    let b = whisper_decode_params("whatever");
    assert_eq!((b.best_of, b.single_segment, b.no_context), (3, false, false));
    assert_eq!(whisper_language("auto"), None);
    assert_eq!(whisper_language("fr"), Some("fr".to_string()));
    assert!(whisper_translates_to_english(true, "EN", ModelTier::Small));
    assert!(!whisper_translates_to_english(true, "en", ModelTier::LargeV3Turbo));
    assert!(!whisper_translates_to_english(true, "de", ModelTier::Small));
    assert_eq!(thread_count_from(Some(4)), 4);
    assert_eq!(thread_count_from(Some(64)), 8);
    assert_eq!(thread_count_from(None), 1);
    assert_eq!(thread_count_from(Some(0)), 1);
}

#[test]
fn translation_after_speech() {
    assert_eq!(
        translation_request("Bonjour", "auto", Some("fr".to_string()), true, " EN ", false),
        Some(("fr".to_string(), "EN".to_string()))
    );
    assert_eq!(translation_request("Hello", "auto", None, true, "en", false), None);
    assert_eq!(translation_request("Hallo", "de", None, true, "de", false), None);
    assert_eq!(translation_request("", "fr", None, true, "en", false), None);
    assert_eq!(translation_request("Salut", "fr", None, false, "en", false), None);
    assert_eq!(translation_request("Salut", "fr", None, true, "en", true), None);
    assert_eq!(translation_request("Salut", "fr", None, true, "  ", false), None);
    assert!(transcript_was_translated(true, true, "a", "a"));
    assert!(transcript_was_translated(true, false, "b", "a"));
    assert!(!transcript_was_translated(true, false, "a", "a"));
    assert!(!transcript_was_translated(false, true, "b", "a"));
}

#[test]
fn llm_steps() {
    assert_eq!(llm_step(RecordingMode::AiAssist, true, "k", false), LlmStep::Assist);
    assert_eq!(llm_step(RecordingMode::AiAssist, false, "k", true), LlmStep::Skip);
    assert_eq!(llm_step(RecordingMode::Normal, true, "k", true), LlmStep::Reformulate);
    assert_eq!(llm_step(RecordingMode::Normal, true, " ", true), LlmStep::Skip);
    assert_eq!(llm_step(RecordingMode::Normal, true, "k", false), LlmStep::Skip);
}

#[test]
fn selection_capture() {
    assert!(selection_needs_second_copy(" old ", "old"));
    assert!(!selection_needs_second_copy("old", "new"));
    assert_eq!(selection_from_clipboard("old", " new text "), Some(" new text ".to_string()));
    assert_eq!(selection_from_clipboard("old", "  "), None);
    assert_eq!(selection_from_clipboard(" same", "same "), None);
    let big = "x".repeat(48_001);
    let s = selection_from_clipboard("", &big).unwrap();
    assert_eq!(s, format!("{}\n… [truncated]", "x".repeat(48_000)));
    let wide = "é".repeat(30_000); // 60 000 bytes, 30 000 characters: kept whole
    let w = selection_from_clipboard("", &wide).unwrap();
    assert_eq!(w, wide);
    let long_wide = "é".repeat(48_002);
    let lw = selection_from_clipboard("", &long_wide).unwrap();
    assert_eq!(lw, format!("{}\n… [truncated]", "é".repeat(48_000)));
    let fits = "y".repeat(48_000);
    assert_eq!(selection_from_clipboard("", &fits), Some(fits.clone()));
}

#[test]
fn hardware_suggestions() {
    let gib: u64 = 1024 * 1024 * 1024;
    let p = hardware_profile(16 * gib, 8, true, true);
    assert_eq!((p.total_ram_gb, p.logical_cpus, p.whisper_gpu), (16, 8, true));
    assert_eq!(p.suggested_tier, "large-v3-turbo");
    assert_eq!(hardware_profile(12 * gib, 4, true, true).suggested_tier, "medium");
    assert_eq!(hardware_profile(12 * gib, 4, false, true).suggested_tier, "base");
    assert_eq!(hardware_profile(32 * gib, 4, true, false).suggested_tier, "small");
    let tiny = hardware_profile(512 * 1024 * 1024, 0, true, true);
    assert_eq!((tiny.total_ram_gb, tiny.logical_cpus), (1, 1));
    assert_eq!(tiny.suggested_tier, "tiny");
    assert_eq!(suggest_tier(8, false), "base");
    let d = detect(false, false);
    assert!(d.logical_cpus >= 1);
    assert!(!d.whisper_gpu);
    assert_eq!(d.suggested_tier, suggest_tier(d.total_ram_gb, false));
}

#[test]
fn foreground_window() {
    assert_eq!(capture_foreground_window(), None);
    try_focus_window(0);
}

#[test]
fn session_state_machine() {
    let mut s = SessionState::new();
    // start in assistant mode with a window in front
    assert_eq!(s.step(SessionEvent::Start(RecordingMode::AiAssist, Some(7))), SessionAction::OpenMicrophone);
    assert!(s.level_meter);
    assert_eq!(s.paste_target, Some(7));
    s.keep_selection("selected".to_string());
    assert_eq!(s.step(SessionEvent::MicrophoneOpened), SessionAction::Nothing);
    assert!(s.recording);
    // a second start while recording does nothing
    assert_eq!(s.step(SessionEvent::Start(RecordingMode::Normal, None)), SessionAction::Nothing);
    assert_eq!(s.mode, RecordingMode::AiAssist);
    // a long enough recording goes to the worker
    assert_eq!(s.step(SessionEvent::Stop(48_000, 48_000)), SessionAction::Transcribe(RecordingMode::AiAssist));
    assert!(s.busy && !s.recording && !s.level_meter);
    // no start while the worker runs
    assert_eq!(s.step(SessionEvent::Start(RecordingMode::Normal, None)), SessionAction::Refuse);
    assert_eq!(s.take_selection(), Some("selected".to_string()));
    assert_eq!(s.take_selection(), None);
    assert_eq!(s.take_paste_target(), Some(7));
    assert_eq!(s.step(SessionEvent::JobFinished), SessionAction::BackToIdle);
    assert!(!s.busy);
    assert_eq!(s.mode, RecordingMode::Normal);
    // too short: back to idle, selection dropped
    s.step(SessionEvent::Start(RecordingMode::AiAssist, None));
    s.keep_selection("x".to_string());
    s.step(SessionEvent::MicrophoneOpened);
    assert_eq!(s.step(SessionEvent::Stop(100, 16_000)), SessionAction::BackToIdle);
    assert_eq!(s.selection, None);
    assert!(!s.busy && !s.recording);
    // microphone failure in assistant mode drops the selection and the target
    s.step(SessionEvent::Start(RecordingMode::AiAssist, Some(3)));
    s.keep_selection("y".to_string());
    assert_eq!(s.step(SessionEvent::MicrophoneFailed), SessionAction::Nothing);
    assert_eq!(s.selection, None);
    assert_eq!(s.paste_target, None);
    assert_eq!(s.mode, RecordingMode::Normal);
    assert!(!s.level_meter);
    // cancel
    s.step(SessionEvent::Start(RecordingMode::Normal, Some(5)));
    s.step(SessionEvent::MicrophoneOpened);
    assert_eq!(s.step(SessionEvent::Cancel), SessionAction::BackToIdle);
    assert!(!s.recording && s.paste_target.is_none());
    assert_eq!(s.step(SessionEvent::Cancel), SessionAction::Nothing);
}
