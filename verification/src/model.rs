//! Whisper model tiers: file names, download locations, settings slugs and the
//! parsing of a tier name typed by the user or suggested by the hardware probe.

use vstd::prelude::*;
use crate::text::{
    is_ws, lower, lower_char, replace_char, trim, trim_end, trim_start, to_chars, trim_vec,
    lower_vec, replace_char_vec, chars_eq_str,
};

verus! {

/// A Whisper GGML model size.
#[derive(Debug, Clone, Copy, PartialEq, Eq, Structural)]
pub enum ModelTier {
    Tiny,
    Base,
    Small,
    Medium,
    /// Needs Whisper on the GPU (CUDA); hidden from the UI without one.
    LargeV3Turbo,
}

/// Every tier, in the order the UI lists them.
pub open spec fn all_tiers() -> Seq<ModelTier> {
    seq![ModelTier::Tiny, ModelTier::Base, ModelTier::Small, ModelTier::Medium, ModelTier::LargeV3Turbo]
}

impl ModelTier {
    /// Stable slug used in `settings.json`, events and the UI.
    pub open spec fn slug(self) -> Seq<char> {
        match self {
            ModelTier::Tiny => "tiny"@,
            ModelTier::Base => "base"@,
            ModelTier::Small => "small"@,
            ModelTier::Medium => "medium"@,
            ModelTier::LargeV3Turbo => "large-v3-turbo"@,
        }
    }

    /// Name of the GGML file of this tier.
    pub open spec fn model_file(self) -> Seq<char> {
        match self {
            ModelTier::Tiny => "ggml-tiny.bin"@,
            ModelTier::Base => "ggml-base.bin"@,
            ModelTier::Small => "ggml-small.bin"@,
            ModelTier::Medium => "ggml-medium.bin"@,
            ModelTier::LargeV3Turbo => "ggml-large-v3-turbo.bin"@,
        }
    }

    /// Where the GGML file of this tier is downloaded from.
    pub open spec fn model_url(self) -> Seq<char> {
        match self {
            ModelTier::Tiny => "https://huggingface.co/ggerganov/whisper.cpp/resolve/main/ggml-tiny.bin"@,
            ModelTier::Base => "https://huggingface.co/ggerganov/whisper.cpp/resolve/main/ggml-base.bin"@,
            ModelTier::Small => "https://huggingface.co/ggerganov/whisper.cpp/resolve/main/ggml-small.bin"@,
            ModelTier::Medium => "https://huggingface.co/ggerganov/whisper.cpp/resolve/main/ggml-medium.bin"@,
            ModelTier::LargeV3Turbo => "https://huggingface.co/ggerganov/whisper.cpp/resolve/main/ggml-large-v3-turbo.bin"@,
        }
    }

    /// Heavy tiers reserved for Whisper on the GPU.
    pub open spec fn needs_gpu(self) -> bool {
        self == ModelTier::Medium || self == ModelTier::LargeV3Turbo
    }

    pub fn file_name(self) -> (res: &'static str)
        ensures
            res@ == self.model_file(),
    {
        match self {
            ModelTier::Tiny => "ggml-tiny.bin",
            ModelTier::Base => "ggml-base.bin",
            ModelTier::Small => "ggml-small.bin",
            ModelTier::Medium => "ggml-medium.bin",
            ModelTier::LargeV3Turbo => "ggml-large-v3-turbo.bin",
        }
    }

    pub fn download_url(self) -> (res: &'static str)
        ensures
            res@ == self.model_url(),
    {
        match self {
            ModelTier::Tiny => "https://huggingface.co/ggerganov/whisper.cpp/resolve/main/ggml-tiny.bin",
            ModelTier::Base => "https://huggingface.co/ggerganov/whisper.cpp/resolve/main/ggml-base.bin",
            ModelTier::Small => "https://huggingface.co/ggerganov/whisper.cpp/resolve/main/ggml-small.bin",
            ModelTier::Medium => "https://huggingface.co/ggerganov/whisper.cpp/resolve/main/ggml-medium.bin",
            ModelTier::LargeV3Turbo => {
                "https://huggingface.co/ggerganov/whisper.cpp/resolve/main/ggml-large-v3-turbo.bin"
            },
        }
    }

    /// Stable slug for JSON (`settings.json`, events, UI).
    pub fn slug_str(self) -> (res: &'static str)
        ensures
            res@ == self.slug(),
    {
        match self {
            ModelTier::Tiny => "tiny",
            ModelTier::Base => "base",
            ModelTier::Small => "small",
            ModelTier::Medium => "medium",
            ModelTier::LargeV3Turbo => "large-v3-turbo",
        }
    }

    /// Heavy tiers reserved for the GPU path; otherwise CPU and small models.
    pub fn gpu_only(self) -> (res: bool)
        ensures
            res == self.needs_gpu(),
    {
        match self {
            ModelTier::Medium | ModelTier::LargeV3Turbo => true,
            _ => false,
        }
    }

    /// Parses a tier name: trimmed, ASCII-lowercased, `_` read as `-`;
    /// anything unknown is `Tiny`.
    pub fn from_suggested_tier(s: &str) -> (res: ModelTier)
        ensures
            res == tier_from_text(s@),
    {
        let v = to_chars(s);
        let t = trim_vec(&v);
        let l = lower_vec(&t);
        let n = replace_char_vec(&l, '_', '-');
        if chars_eq_str(&n, "small") {
            ModelTier::Small
        } else if chars_eq_str(&n, "base") {
            ModelTier::Base
        } else if chars_eq_str(&n, "medium") {
            ModelTier::Medium
        } else if chars_eq_str(&n, "large-v3-turbo") {
            ModelTier::LargeV3Turbo
        } else {
            ModelTier::Tiny
        }
    }

    /// Tiers listed in the UI: always tiny/base/small; medium and
    /// large-v3-turbo only when `include_gpu_tiers`.
    pub fn all_for_overview(include_gpu_tiers: bool) -> (res: &'static [ModelTier])
        ensures
            res@ == overview_tiers(include_gpu_tiers),
    {
        if include_gpu_tiers {
            let r: &'static [ModelTier] = &[
                ModelTier::Tiny,
                ModelTier::Base,
                ModelTier::Small,
                ModelTier::Medium,
                ModelTier::LargeV3Turbo,
            ];
            r
        } else {
            let r: &'static [ModelTier] = &[ModelTier::Tiny, ModelTier::Base, ModelTier::Small];
            r
        }
    }
}

/// The tiers the overview lists.
pub open spec fn overview_tiers(include_gpu_tiers: bool) -> Seq<ModelTier> {
    if include_gpu_tiers {
        all_tiers()
    } else {
        seq![ModelTier::Tiny, ModelTier::Base, ModelTier::Small]
    }
}

/// A tier name as the parser sees it: trimmed, lower-cased, `_` turned into `-`.
pub open spec fn normalize_tier_text(s: Seq<char>) -> Seq<char> {
    replace_char(lower(trim(s)), '_', '-')
}

/// The tier named by a normalised tier name; unknown names give `Tiny`.
pub open spec fn tier_from_normalized(n: Seq<char>) -> ModelTier {
    if n == "small"@ {
        ModelTier::Small
    } else if n == "base"@ {
        ModelTier::Base
    } else if n == "medium"@ {
        ModelTier::Medium
    } else if n == "large-v3-turbo"@ {
        ModelTier::LargeV3Turbo
    } else {
        ModelTier::Tiny
    }
}

pub open spec fn tier_from_text(s: Seq<char>) -> ModelTier {
    tier_from_normalized(normalize_tier_text(s))
}

/// A string of lower-case letters, digits and `-` is left as is by tier-name normalisation.
proof fn lemma_plain_slug_normalizes(s: Seq<char>)
    requires
        forall|i: int|
            0 <= i < s.len() ==> (('a' <= #[trigger] s[i] && s[i] <= 'z') || ('0' <= s[i]
                && s[i] <= '9') || s[i] == '-'),
    ensures
        normalize_tier_text(s) == s,
{
    crate::text::lemma_trim_no_ws(s);
    assert(lower(s) =~= s);
    assert(replace_char(s, '_', '-') =~= s);
}

/// The tier names are pairwise different.
pub proof fn lemma_slugs_distinct()
    ensures
        forall|a: ModelTier, b: ModelTier| #[trigger] a.slug() == #[trigger] b.slug() ==> a == b,
{
    reveal_strlit("tiny");
    reveal_strlit("base");
    reveal_strlit("small");
    reveal_strlit("medium");
    reveal_strlit("large-v3-turbo");
    assert forall|a: ModelTier, b: ModelTier| #[trigger] a.slug() == #[trigger] b.slug() implies a
        == b by {
        // the first letters already differ
        assert(a.slug()[0] == b.slug()[0]);
    }
}

/// Parsing the slug of a tier gives back that tier.
pub proof fn lemma_slug_roundtrip(t: ModelTier)
    ensures
        tier_from_text(t.slug()) == t,
{
    reveal_strlit("tiny");
    reveal_strlit("base");
    reveal_strlit("small");
    reveal_strlit("medium");
    reveal_strlit("large-v3-turbo");
    lemma_plain_slug_normalizes(t.slug());
}

/// Parsing is insensitive to surrounding whitespace, ASCII case and `_` versus `-`:
/// two texts that normalise alike name the same tier.
pub proof fn lemma_parse_depends_on_normal_form(a: Seq<char>, b: Seq<char>)
    requires
        normalize_tier_text(a) == normalize_tier_text(b),
    ensures
        tier_from_text(a) == tier_from_text(b),
{
}

/// The file of every tier is `ggml-<slug>.bin`, and it is downloaded from the
/// `resolve/main` folder of the whisper.cpp repository.
pub proof fn lemma_file_and_url_follow_slug(t: ModelTier)
    ensures
        t.model_file() == "ggml-"@ + t.slug() + ".bin"@,
        t.model_url() == "https://huggingface.co/ggerganov/whisper.cpp/resolve/main/"@
            + t.model_file(),
{
    reveal_strlit("ggml-");
    reveal_strlit(".bin");
    reveal_strlit("https://huggingface.co/ggerganov/whisper.cpp/resolve/main/");
    match t {
        ModelTier::Tiny => {
            reveal_strlit("tiny");
            reveal_strlit("ggml-tiny.bin");
            reveal_strlit("https://huggingface.co/ggerganov/whisper.cpp/resolve/main/ggml-tiny.bin");
            assert(t.model_file() =~= "ggml-"@ + t.slug() + ".bin"@);
            assert(t.model_url() =~= "https://huggingface.co/ggerganov/whisper.cpp/resolve/main/"@ + t.model_file());
        },
        ModelTier::Base => {
            reveal_strlit("base");
            reveal_strlit("ggml-base.bin");
            reveal_strlit("https://huggingface.co/ggerganov/whisper.cpp/resolve/main/ggml-base.bin");
            assert(t.model_file() =~= "ggml-"@ + t.slug() + ".bin"@);
            assert(t.model_url() =~= "https://huggingface.co/ggerganov/whisper.cpp/resolve/main/"@ + t.model_file());
        },
        ModelTier::Small => {
            reveal_strlit("small");
            reveal_strlit("ggml-small.bin");
            reveal_strlit("https://huggingface.co/ggerganov/whisper.cpp/resolve/main/ggml-small.bin");
            assert(t.model_file() =~= "ggml-"@ + t.slug() + ".bin"@);
            assert(t.model_url() =~= "https://huggingface.co/ggerganov/whisper.cpp/resolve/main/"@ + t.model_file());
        },
        ModelTier::Medium => {
            reveal_strlit("medium");
            reveal_strlit("ggml-medium.bin");
            reveal_strlit("https://huggingface.co/ggerganov/whisper.cpp/resolve/main/ggml-medium.bin");
            assert(t.model_file() =~= "ggml-"@ + t.slug() + ".bin"@);
            assert(t.model_url() =~= "https://huggingface.co/ggerganov/whisper.cpp/resolve/main/"@ + t.model_file());
        },
        ModelTier::LargeV3Turbo => {
            reveal_strlit("large-v3-turbo");
            reveal_strlit("ggml-large-v3-turbo.bin");
            reveal_strlit("https://huggingface.co/ggerganov/whisper.cpp/resolve/main/ggml-large-v3-turbo.bin");
            assert(t.model_file() =~= "ggml-"@ + t.slug() + ".bin"@);
            assert(t.model_url() =~= "https://huggingface.co/ggerganov/whisper.cpp/resolve/main/"@ + t.model_file());
        },
    }
}

/// The overview lists a tier exactly when the GPU tiers are included or the
/// tier does not need the GPU.
pub proof fn lemma_overview_membership(include_gpu_tiers: bool, t: ModelTier)
    ensures
        overview_tiers(include_gpu_tiers).contains(t) <==> (include_gpu_tiers || !t.needs_gpu()),
{
    let s = overview_tiers(include_gpu_tiers);
    match t {
        ModelTier::Tiny => assert(s[0] == t),
        ModelTier::Base => assert(s[1] == t),
        ModelTier::Small => assert(s[2] == t),
        ModelTier::Medium => if include_gpu_tiers { assert(s[3] == t) },
        ModelTier::LargeV3Turbo => if include_gpu_tiers { assert(s[4] == t) },
    }
}

} // verus!
