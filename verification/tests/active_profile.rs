use voxpill::profiles::active_profile_index;
use voxpill::config::{AppConfig, ReformulationProfile};
use voxpill::model::ModelTier;
use voxpill::normalize::{normalize_config, sync_globals_from_active_profile};
use voxpill::pipeline::{
    active_profile_pipeline, cycle_active_profile, download_refusal,
    downgrade_gpu_only_if_unavailable, reformulation_params_from_cfg, reset_tier_after_delete,
    whisper_should_use_gpu,
};

fn profile(id: &str, name: &str, decode: &str, re: bool) -> ReformulationProfile {
    ReformulationProfile {
        id: id.to_string(),
        profile_name: name.to_string(),
        model: format!("model-{id}"),
        prompt: format!("prompt-{id}"),
        decode_profile: decode.to_string(),
        translate_enabled: re,
        translate_target: "de".to_string(),
        reformulation_enabled: re,
    }
}

fn three() -> AppConfig {
    let mut c = AppConfig::default();
    c.pipeline_profiles_migrated = true;
    c.reformulation_profiles = vec![
        profile("a", "A", "fast", false),
        profile("b", "B", "accurate", true),
        profile("c", "C", "balanced", false),
    ];
    c.reformulation_active_profile_id = "a".to_string();
    c
}

#[test]
fn cycling_goes_round() {
    let mut c = three();
    let first = cycle_active_profile(&mut c).unwrap();
    assert_eq!(first.profile_index, 2);
    assert_eq!(first.profile_id, "b");
    assert_eq!(first.profile_name, "B");
    assert!(!first.anim_forward);
    assert!(first.reformulation_enabled);
    assert_eq!(c.reformulation_active_profile_id, "b");
    assert_eq!(c.decode_profile, "accurate");
    assert!(c.reformulation_enabled);
    let second = cycle_active_profile(&mut c).unwrap();
    assert_eq!(second.profile_index, 3);
    assert!(second.anim_forward);
    let third = cycle_active_profile(&mut c).unwrap();
    assert_eq!(third.profile_index, 1);
    assert_eq!(c.reformulation_active_profile_id, "a");
    assert_eq!(c.decode_profile, "fast");
}

#[test]
fn cycling_without_profiles_does_nothing() {
    let mut c = AppConfig::default();
    c.reformulation_profiles = Vec::new();
    c.reformulation_active_profile_id = "x".to_string();
    assert!(cycle_active_profile(&mut c).is_none());
    assert_eq!(c.reformulation_active_profile_id, "x");
}

#[test]
fn cycling_from_an_unknown_id_starts_after_the_first() {
    let mut c = three();
    c.reformulation_active_profile_id = "nope".to_string();
    let r = cycle_active_profile(&mut c).unwrap();
    assert_eq!(r.profile_id, "b");
}

#[test]
fn pipeline_follows_active_profile() {
    let mut c = three();
    c.reformulation_active_profile_id = "c".to_string();
    let (dec, tr, tgt) = active_profile_pipeline(&c);
    assert_eq!(dec, "balanced");
    assert!(!tr);
    assert_eq!(tgt, "de");
    // no active profile: the global values
    c.reformulation_active_profile_id = "".to_string();
    c.decode_profile = "balanced".to_string();
    c.translate_target = "fr".to_string();
    assert_eq!(active_profile_pipeline(&c), ("balanced".to_string(), c.translate_enabled, "fr".to_string()));
    c.reformulation_active_profile_id = "zzz".to_string();
    assert_eq!(active_profile_pipeline(&c).2, "fr");
    c.reformulation_profiles.clear();
    c.decode_profile = "accurate".to_string();
    c.translate_target = "it".to_string();
    assert_eq!(active_profile_pipeline(&c), ("accurate".to_string(), c.translate_enabled, "it".to_string()));
}

#[test]
fn sync_copies_active_values() {
    let mut c = three();
    c.reformulation_active_profile_id = " b ".to_string();
    sync_globals_from_active_profile(&mut c);
    assert_eq!(c.decode_profile, "accurate");
    assert_eq!(c.translate_target, "de");
    assert!(c.translate_enabled);
}

#[test]
fn reformulation_parameters() {
    let mut c = three();
    c.reformulation_active_profile_id = "b".to_string();
    c.reformulation_api_key = "k".to_string();
    c.reformulation_provider = "openrouter".to_string();
    c.reformulation_assist_model = "assist".to_string();
    let p = reformulation_params_from_cfg(&c);
    assert!(p.enabled);
    assert_eq!(p.active_profile, 2);
    assert_eq!(p.api_key, "k");
    assert_eq!(p.provider, "openrouter");
    assert_eq!(p.profiles.len(), 3);
    assert_eq!(p.profiles[2].model, "model-c");
    assert_eq!(p.profiles[0].prompt, "prompt-a");
    assert_eq!(p.assist_model_override, "assist");
    c.reformulation_active_profile_id = "missing".to_string();
    let q = reformulation_params_from_cfg(&c);
    assert_eq!(q.active_profile, 1);
    assert!(!q.enabled);
}

#[test]
fn gpu_only_tier_falls_back() {
    let mut c = AppConfig::default();
    c.model_tier = "medium".to_string();
    downgrade_gpu_only_if_unavailable(&mut c, true);
    assert_eq!(c.model_tier, "medium");
    downgrade_gpu_only_if_unavailable(&mut c, false);
    assert_eq!(c.model_tier, "small");
    c.model_tier = "base".to_string();
    downgrade_gpu_only_if_unavailable(&mut c, false);
    assert_eq!(c.model_tier, "base");
    assert!(whisper_should_use_gpu(true, true));
    assert!(!whisper_should_use_gpu(false, true));
    assert!(download_refusal(ModelTier::LargeV3Turbo, false).unwrap().contains("CUDA"));
    assert!(download_refusal(ModelTier::LargeV3Turbo, true).is_none());
    assert!(download_refusal(ModelTier::Tiny, false).is_none());
}

#[test]
fn deleting_the_selected_model() {
    let mut c = AppConfig::default();
    c.model_tier = "small".to_string();
    assert!(!reset_tier_after_delete(&mut c, ModelTier::Base));
    assert_eq!(c.model_tier, "small");
    assert!(reset_tier_after_delete(&mut c, ModelTier::Small));
    assert_eq!(c.model_tier, "tiny");
}

#[test]
fn normalized_config_cycles_back() {
    let mut c = AppConfig::default();
    normalize_config(&mut c);
    let start = c.reformulation_active_profile_id.clone();
    let n = c.reformulation_profiles.len();
    for _ in 0..n {
        cycle_active_profile(&mut c);
    }
    assert_eq!(c.reformulation_active_profile_id, start);
}

#[test]
fn reordering_keeps_the_active_profile() {
    let mut c = three();
    c.reformulation_active_profile_id = " b ".to_string();
    let i = active_profile_index(&c).unwrap();
    assert_eq!(c.reformulation_profiles[i].id, "b");
    c.reformulation_profiles.reverse();
    let j = active_profile_index(&c).unwrap();
    assert_eq!(j, 1);
    assert_eq!(c.reformulation_profiles[j].id, "b");
    c.reformulation_profiles.rotate_left(1);
    let k = active_profile_index(&c).unwrap();
    assert_eq!(k, 0);
    assert_eq!(c.reformulation_profiles[k].profile_name, "B");
    c.reformulation_active_profile_id = "none".to_string();
    assert_eq!(active_profile_index(&c), None);
}

#[test]
fn other_settings_stay_put() {
    let mut c = three();
    c.model_tier = "medium".to_string();
    c.language = "de".to_string();
    c.stt_groq_api_key = "k".to_string();
    downgrade_gpu_only_if_unavailable(&mut c, false);
    assert_eq!(c.model_tier, "small");
    assert_eq!(c.language, "de");
    assert_eq!(c.stt_groq_api_key, "k");
    assert!(reset_tier_after_delete(&mut c, ModelTier::Small));
    assert_eq!(c.model_tier, "tiny");
    assert_eq!(c.language, "de");
    let r = cycle_active_profile(&mut c).unwrap();
    assert_eq!(r.profile_id, "b");
    assert_eq!(c.model_tier, "tiny");
    assert_eq!(c.stt_groq_api_key, "k");
    assert_eq!(c.ptt_shortcut, "Ctrl+Shift+Space");
}
