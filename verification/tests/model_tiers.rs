use voxpill::model::ModelTier;

const ALL: [ModelTier; 5] = [
    ModelTier::Tiny,
    ModelTier::Base,
    ModelTier::Small,
    ModelTier::Medium,
    ModelTier::LargeV3Turbo,
];

#[test]
fn slugs_and_files() {
    assert_eq!(ModelTier::Tiny.slug_str(), "tiny");
    assert_eq!(ModelTier::LargeV3Turbo.slug_str(), "large-v3-turbo");
    assert_eq!(ModelTier::Medium.file_name(), "ggml-medium.bin");
    assert_eq!(ModelTier::LargeV3Turbo.file_name(), "ggml-large-v3-turbo.bin");
    assert_eq!(
        ModelTier::Base.download_url(),
        "https://huggingface.co/ggerganov/whisper.cpp/resolve/main/ggml-base.bin"
    );
}

#[test]
fn file_and_url_follow_slug() {
    for t in ALL {
        assert_eq!(t.file_name(), format!("ggml-{}.bin", t.slug_str()));
        assert_eq!(
            t.download_url(),
            format!("https://huggingface.co/ggerganov/whisper.cpp/resolve/main/{}", t.file_name())
        );
    }
}

#[test]
fn slug_roundtrip() {
    for t in ALL {
        assert_eq!(ModelTier::from_suggested_tier(t.slug_str()), t);
    }
}

#[test]
fn parsing_is_lenient() {
    assert_eq!(ModelTier::from_suggested_tier("  Large_V3_Turbo\n"), ModelTier::LargeV3Turbo);
    assert_eq!(ModelTier::from_suggested_tier("SMALL"), ModelTier::Small);
    assert_eq!(ModelTier::from_suggested_tier("\u{3000}medium\u{a0}"), ModelTier::Medium);
    assert_eq!(ModelTier::from_suggested_tier("huge"), ModelTier::Tiny);
    assert_eq!(ModelTier::from_suggested_tier(""), ModelTier::Tiny);
    assert_eq!(ModelTier::from_suggested_tier("large v3 turbo"), ModelTier::Tiny);
}

#[test]
fn gpu_only_tiers() {
    assert!(!ModelTier::Tiny.gpu_only());
    assert!(!ModelTier::Base.gpu_only());
    assert!(!ModelTier::Small.gpu_only());
    assert!(ModelTier::Medium.gpu_only());
    assert!(ModelTier::LargeV3Turbo.gpu_only());
}

#[test]
fn overview_lists() {
    assert_eq!(
        ModelTier::all_for_overview(false),
        &[ModelTier::Tiny, ModelTier::Base, ModelTier::Small]
    );
    assert_eq!(ModelTier::all_for_overview(true), &ALL);
    for t in ALL {
        assert_eq!(ModelTier::all_for_overview(false).contains(&t), !t.gpu_only());
        assert!(ModelTier::all_for_overview(true).contains(&t));
    }
}
