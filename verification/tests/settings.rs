use voxpill::config::{
    default_reformulation_profiles, ensure_distinct_global_shortcuts, normalize_shortcut_token, pick_distinct_shortcut, AppConfig, InsertMode, ReformulationProfile,
};
use voxpill::normalize::normalize_config;
use voxpill::profiles::{
    active_profile_index, assign_reformulation_profile_ids, resolve_reformulation_active_profile,
};

fn profile(id: &str, name: &str, decode: &str, target: &str) -> ReformulationProfile {
    ReformulationProfile {
        id: id.to_string(),
        profile_name: name.to_string(),
        model: "m".to_string(),
        prompt: "p".to_string(),
        decode_profile: decode.to_string(),
        translate_enabled: false,
        translate_target: target.to_string(),
        reformulation_enabled: false,
    }
}

fn is_uuid(s: &str) -> bool {
    s.len() == 36 && s.chars().all(|c| c.is_ascii_digit() || ('a'..='f').contains(&c) || c == '-')
}

#[test]
fn profile_ids_are_uuids() {
    let ps = default_reformulation_profiles();
    assert!(ps.iter().all(|p| is_uuid(&p.id)));
    assert_ne!(ps[0].id, ps[1].id);
    assert_ne!(ps[1].id, ps[2].id);
    let qs = default_reformulation_profiles();
    assert_ne!(ps[0].id, qs[0].id);
}

#[test]
fn default_settings() {
    let c = AppConfig::default();
    assert_eq!(c.language, "fr");
    assert_eq!(c.insert_mode, InsertMode::Paste);
    assert_eq!(c.model_tier, "tiny");
    assert_eq!(c.decode_profile, "balanced");
    assert_eq!(c.ptt_shortcut, "Ctrl+Shift+Space");
    assert_eq!(c.shortcut_transcribe_file, "Ctrl+Shift+T");
    assert_eq!(c.shortcut_ai_assist, "Ctrl+Alt+Space");
    assert_eq!(c.shortcut_cycle_profile, "Ctrl+Alt+Shift+P");
    assert!(c.status_sounds_enabled);
    assert_eq!(c.reformulation_provider, "groq");
    assert_eq!(c.stt_mode, "local");
    assert_eq!(c.stt_cloud_model, "whisper-large-v3-turbo");
    assert_eq!(c.reformulation_profiles.len(), 3);
    assert_eq!(c.reformulation_active_profile_id, c.reformulation_profiles[0].id);
    assert_eq!(c.reformulation_profiles[2].profile_name, "Profile 3");
    assert!(!c.pipeline_profiles_migrated);
    let ps = default_reformulation_profiles();
    assert!(ps.iter().all(|p| is_uuid(&p.id) && p.model == "llama-3.1-8b-instant"));
}

#[test]
fn normalizing_defaults_keeps_them() {
    let mut c = AppConfig::default();
    let ids: Vec<String> = c.reformulation_profiles.iter().map(|p| p.id.clone()).collect();
    normalize_config(&mut c);
    let after: Vec<String> = c.reformulation_profiles.iter().map(|p| p.id.clone()).collect();
    assert_eq!(ids, after);
    assert_eq!(c.reformulation_active_profile_id, ids[0]);
    assert!(c.pipeline_profiles_migrated);
    assert_eq!(c.model_tier, "tiny");
    assert_eq!(active_profile_index(&c), Some(0));
}

#[test]
fn normalizing_fixes_every_field() {
    let mut c = AppConfig::default();
    c.model_tier = " Large_V3_Turbo ".to_string();
    c.translate_target = "  ".to_string();
    c.decode_profile = "FAST".to_string();
    c.reformulation_provider = " OpenRouter ".to_string();
    c.stt_mode = "cloud".to_string();
    c.stt_cloud_model = " WHISPER-LARGE-V3 ".to_string();
    c.stt_groq_api_key = "  key  ".to_string();
    c.reformulation_assist_model = " gpt ".to_string();
    c.translate_enabled = true;
    c.reformulation_enabled = true;
    normalize_config(&mut c);
    assert_eq!(c.model_tier, "large-v3-turbo");
    assert_eq!(c.reformulation_provider, "openrouter");
    assert_eq!(c.stt_mode, "local");
    assert_eq!(c.stt_cloud_model, "whisper-large-v3");
    assert_eq!(c.stt_groq_api_key, "key");
    assert_eq!(c.reformulation_assist_model, "gpt");
    // the migration copied the normalised globals into every profile, then synced back
    for p in &c.reformulation_profiles {
        assert_eq!(p.decode_profile, "fast");
        assert_eq!(p.translate_target, "en");
        assert!(p.translate_enabled);
        assert!(p.reformulation_enabled);
    }
    assert_eq!(c.decode_profile, "fast");
    assert_eq!(c.translate_target, "en");
    let mut bad = AppConfig::default();
    bad.model_tier = "huge".to_string();
    bad.decode_profile = "slow".to_string();
    bad.reformulation_provider = "openai".to_string();
    bad.stt_cloud_model = "whisper-1".to_string();
    normalize_config(&mut bad);
    assert_eq!(bad.model_tier, "tiny");
    assert_eq!(bad.decode_profile, "balanced");
    assert_eq!(bad.reformulation_provider, "groq");
    assert_eq!(bad.stt_cloud_model, "whisper-large-v3-turbo");
}

#[test]
fn empty_profile_list_gets_defaults() {
    let mut c = AppConfig::default();
    c.reformulation_profiles = Vec::new();
    c.reformulation_active_profile_id = String::new();
    normalize_config(&mut c);
    assert_eq!(c.reformulation_profiles.len(), 3);
    assert_eq!(c.reformulation_active_profile_id, c.reformulation_profiles[0].id);
    assert_eq!(c.reformulation_profiles[1].profile_name, "Profile 2");
}

#[test]
fn legacy_index_and_blank_names() {
    let mut c = AppConfig::default();
    c.pipeline_profiles_migrated = true;
    c.reformulation_profiles = vec![
        profile("a", "", "ACCURATE", " FR "),
        profile("b", "  Mine  ", "weird", ""),
    ];
    c.reformulation_active_profile_id = "   ".to_string();
    c.reformulation_active_profile = Some(2);
    normalize_config(&mut c);
    assert_eq!(c.reformulation_active_profile_id, "b");
    assert_eq!(c.reformulation_active_profile, None);
    assert_eq!(c.reformulation_profiles[0].profile_name, "Profile 1");
    assert_eq!(c.reformulation_profiles[1].profile_name, "Mine");
    assert_eq!(c.reformulation_profiles[0].decode_profile, "accurate");
    assert_eq!(c.reformulation_profiles[0].translate_target, "fr");
    assert_eq!(c.reformulation_profiles[1].decode_profile, "balanced");
    assert_eq!(c.reformulation_profiles[1].translate_target, "en");
    // globals follow the active profile
    assert_eq!(c.decode_profile, "balanced");
    assert_eq!(c.translate_target, "en");
}

#[test]
fn unknown_active_id_falls_back_to_first() {
    let mut c = AppConfig::default();
    c.reformulation_profiles = vec![profile("a", "A", "fast", "en"), profile("b", "B", "fast", "en")];
    c.reformulation_active_profile_id = " zzz ".to_string();
    resolve_reformulation_active_profile(&mut c);
    assert_eq!(c.reformulation_active_profile_id, "a");
    c.reformulation_active_profile_id = " b ".to_string();
    resolve_reformulation_active_profile(&mut c);
    assert_eq!(c.reformulation_active_profile_id, "b");
}

#[test]
fn duplicate_and_blank_ids_are_replaced() {
    let mut ps = vec![
        profile("same", "1", "fast", "en"),
        profile("same", "2", "fast", "en"),
        profile("  ", "3", "fast", "en"),
        profile("other", "4", "fast", "en"),
    ];
    assign_reformulation_profile_ids(&mut ps);
    assert_eq!(ps[0].id, "same");
    assert!(is_uuid(&ps[1].id));
    assert!(is_uuid(&ps[2].id));
    assert_eq!(ps[3].id, "other");
    assert_ne!(ps[1].id, ps[2].id);
    assert_eq!(ps[1].profile_name, "2");
}

#[test]
fn valid_ids_are_kept() {
    let mut ps = vec![profile("x", "1", "fast", "en"), profile("y", "2", "fast", "en")];
    assign_reformulation_profile_ids(&mut ps);
    assert_eq!(ps[0].id, "x");
    assert_eq!(ps[1].id, "y");
}

#[test]
fn shortcut_tokens() {
    assert_eq!(normalize_shortcut_token("  Ctrl+K ", "Ctrl+Space"), "Ctrl+K");
    assert_eq!(normalize_shortcut_token("   ", "Ctrl+Space"), "Ctrl+Space");
    let long = "A".repeat(65);
    assert_eq!(normalize_shortcut_token(&long, "D"), "D");
    let exact = "A".repeat(64);
    assert_eq!(normalize_shortcut_token(&exact, "D"), exact);
    // 22 characters of 3 bytes: 66 bytes
    let wide = "€".repeat(22);
    assert_eq!(normalize_shortcut_token(&wide, "D"), "D");
}

#[test]
fn picking_distinct_shortcuts() {
    let mut used = vec!["Ctrl+Space".to_string()];
    let r = pick_distinct_shortcut("Ctrl+Space".to_string(), "Ctrl+Shift+T", &["Ctrl+Shift+Y"], &mut used);
    assert_eq!(r, "Ctrl+Shift+T");
    assert_eq!(used, vec!["Ctrl+Space".to_string(), "Ctrl+Shift+T".to_string()]);
    let mut full = vec!["a".to_string(), "b".to_string(), "c".to_string()];
    let r = pick_distinct_shortcut("a".to_string(), "b", &["c"], &mut full);
    assert_eq!(r, "Ctrl+Shift+12");
    assert_eq!(full.len(), 4);
}

#[test]
fn global_shortcuts_become_distinct() {
    let mut c = AppConfig::default();
    c.ptt_shortcut = "Ctrl+Shift+T".to_string();
    c.shortcut_transcribe_file = "Ctrl+Shift+T".to_string();
    c.shortcut_ai_assist = "Ctrl+Shift+T".to_string();
    c.shortcut_cycle_profile = "Ctrl+Shift+Y".to_string();
    ensure_distinct_global_shortcuts(&mut c);
    assert_eq!(c.ptt_shortcut, "Ctrl+Shift+T");
    assert_eq!(c.shortcut_transcribe_file, "Ctrl+Shift+Y");
    assert_eq!(c.shortcut_ai_assist, "Ctrl+Alt+Space");
    assert_eq!(c.shortcut_cycle_profile, "Ctrl+Alt+Shift+P");
    let mut d = AppConfig::default();
    d.ptt_shortcut = "Ctrl+Alt+Shift+P".to_string();
    d.shortcut_transcribe_file = "Ctrl+Alt+Shift+O".to_string();
    d.shortcut_ai_assist = "Ctrl+Alt+Shift+I".to_string();
    d.shortcut_cycle_profile = "".to_string();
    ensure_distinct_global_shortcuts(&mut d);
    assert_eq!(d.shortcut_cycle_profile, "Ctrl+Alt+Shift+K");
    let all = [
        &d.ptt_shortcut,
        &d.shortcut_transcribe_file,
        &d.shortcut_ai_assist,
        &d.shortcut_cycle_profile,
    ];
    for i in 0..4 {
        for j in 0..4 {
            if i != j {
                assert_ne!(all[i], all[j]);
            }
        }
    }
}

fn snapshot(c: &AppConfig) -> Vec<String> {
    let mut v = vec![
        c.language.clone(),
        format!("{:?}", c.insert_mode),
        c.model_tier.clone(),
        c.decode_profile.clone(),
        c.ptt_shortcut.clone(),
        c.shortcut_transcribe_file.clone(),
        c.shortcut_ai_assist.clone(),
        c.shortcut_cycle_profile.clone(),
        c.status_sounds_enabled.to_string(),
        c.translate_enabled.to_string(),
        c.translate_target.clone(),
        c.reformulation_enabled.to_string(),
        c.reformulation_api_key.clone(),
        c.reformulation_provider.clone(),
        c.reformulation_active_profile_id.clone(),
        format!("{:?}", c.reformulation_active_profile),
        c.reformulation_assist_model.clone(),
        c.stt_mode.clone(),
        c.stt_cloud_model.clone(),
        c.stt_groq_api_key.clone(),
        c.pipeline_profiles_migrated.to_string(),
    ];
    for p in &c.reformulation_profiles {
        v.push(format!("{:?}", p));
    }
    v
}

#[test]
fn normalizing_twice_changes_nothing() {
    let mut c = AppConfig::default();
    c.model_tier = " Medium ".to_string();
    c.decode_profile = "ACCURATE".to_string();
    c.ptt_shortcut = "Ctrl+Shift+T".to_string();
    c.shortcut_cycle_profile = "  ".to_string();
    c.reformulation_provider = "x".to_string();
    c.stt_groq_api_key = " k ".to_string();
    c.reformulation_profiles = vec![
        profile("a", "  ", "fast", " DE "),
        profile("a", "Two", "slow", ""),
        profile("", "Three", "balanced", "it"),
    ];
    c.reformulation_active_profile_id = String::new();
    c.reformulation_active_profile = Some(3);
    normalize_config(&mut c);
    let first = snapshot(&c);
    normalize_config(&mut c);
    assert_eq!(first, snapshot(&c));
    // and once more from the defaults
    let mut d = AppConfig::default();
    normalize_config(&mut d);
    let first = snapshot(&d);
    normalize_config(&mut d);
    assert_eq!(first, snapshot(&d));
}

#[test]
fn padded_ids_with_a_legacy_index_move_on_second_pass() {
    // ids with surrounding spaces are kept as they are; the active id chosen by
    // the legacy index is then no longer found once trimmed
    let mut c = AppConfig::default();
    c.reformulation_profiles = vec![profile(" x ", "A", "fast", "en"), profile(" y ", "B", "fast", "en")];
    c.reformulation_active_profile_id = String::new();
    c.reformulation_active_profile = Some(2);
    normalize_config(&mut c);
    assert_eq!(c.reformulation_active_profile_id, " y ");
    normalize_config(&mut c);
    assert_eq!(c.reformulation_active_profile_id, " x ");
}
