//! What the dictation pipeline reads from the settings: the active profile's
//! pipeline values, the reformulation parameters, the GPU-only tier fallback and
//! the cycling through profiles bound to a global shortcut.

use vstd::prelude::*;
use crate::text::owned;
use crate::model::{tier_from_text, ModelTier};
use crate::config::{AppConfig, ReformulationProfile};
use crate::profiles::{
    active_index, active_profile_index, ids_valid, index_of_id, lemma_index_of_id, profile_ids,
};
use crate::normalize::{globals_of, synced_globals, sync_globals_from_active_profile};
use crate::reformulate::{ReformulationParams, ReformulationProfileSnap};

verus! {

/// Index the pipeline uses: the active profile, else the first.
pub open spec fn pipeline_index(c: AppConfig) -> int {
    match active_index(c) {
        Some(k) => k,
        None => 0,
    }
}

/// Whisper decoding preset, translation switch and target language of the
/// active profile; the global values when no profile is active.
pub open spec fn pipeline_of(c: AppConfig) -> (Seq<char>, bool, Seq<char>) {
    match active_index(c) {
        Some(k) => (
            c.reformulation_profiles@[k].decode_profile@,
            c.reformulation_profiles@[k].translate_enabled,
            c.reformulation_profiles@[k].translate_target@,
        ),
        None => (c.decode_profile@, c.translate_enabled, c.translate_target@),
    }
}

pub fn active_profile_pipeline(cfg: &AppConfig) -> (r: (String, bool, String))
    ensures
        (r.0@, r.1, r.2@) == pipeline_of(*cfg),
{
    match active_profile_index(cfg) {
        Some(k) => {
            let p = &cfg.reformulation_profiles[k];
            (p.decode_profile.clone(), p.translate_enabled, p.translate_target.clone())
        },
        None => (cfg.decode_profile.clone(), cfg.translate_enabled, cfg.translate_target.clone()),
    }
}

/// Model and prompt of each profile.
pub open spec fn snaps_of(ps: Seq<ReformulationProfile>) -> Seq<(Seq<char>, Seq<char>)> {
    ps.map_values(|p: ReformulationProfile| (p.model@, p.prompt@))
}

pub open spec fn snap_views(ps: Seq<ReformulationProfileSnap>) -> Seq<(Seq<char>, Seq<char>)> {
    ps.map_values(|p: ReformulationProfileSnap| (p.model@, p.prompt@))
}

/// The reformulation parameters of a configuration.
pub open spec fn params_match(c: AppConfig, p: ReformulationParams) -> bool {
    let k = pipeline_index(c);
    &&& p.enabled == (0 <= k < c.reformulation_profiles@.len()
        && c.reformulation_profiles@[k].reformulation_enabled)
    &&& p.api_key@ == c.reformulation_api_key@
    &&& p.provider@ == c.reformulation_provider@
    &&& p.active_profile == (if k + 1 <= 255 { k + 1 } else { 255 })
    &&& snap_views(p.profiles@) == snaps_of(c.reformulation_profiles@)
    &&& p.assist_model_override@ == c.reformulation_assist_model@
}

pub fn reformulation_params_from_cfg(cfg: &AppConfig) -> (r: ReformulationParams)
    ensures
        params_match(*cfg, r),
{
    let idx = match active_profile_index(cfg) {
        Some(k) => k,
        None => 0,
    };
    let enabled = if idx < cfg.reformulation_profiles.len() {
        cfg.reformulation_profiles[idx].reformulation_enabled
    } else {
        false
    };
    let one_based: u8 = if idx < 255 {
        (idx + 1) as u8
    } else {
        255
    };
    let mut profiles: Vec<ReformulationProfileSnap> = Vec::new();
    let n = cfg.reformulation_profiles.len();
    let mut i: usize = 0;
    while i < n
        invariant
            n == cfg.reformulation_profiles@.len(),
            i <= n,
            snap_views(profiles@) == snaps_of(cfg.reformulation_profiles@.take(i as int)),
        decreases n - i,
    {
        let p = &cfg.reformulation_profiles[i];
        let ghost before = profiles@;
        profiles.push(ReformulationProfileSnap { model: p.model.clone(), prompt: p.prompt.clone() });
        proof {
            assert(snap_views(profiles@) =~= snap_views(before).push((p.model@, p.prompt@)));
            assert(cfg.reformulation_profiles@.take(i + 1) =~= cfg.reformulation_profiles@.take(
                i as int,
            ).push(*p));
            assert(snaps_of(cfg.reformulation_profiles@.take(i + 1)) =~= snaps_of(
                cfg.reformulation_profiles@.take(i as int),
            ).push((p.model@, p.prompt@)));
        }
        i = i + 1;
    }
    assert(cfg.reformulation_profiles@.take(n as int) =~= cfg.reformulation_profiles@);
    ReformulationParams {
        enabled,
        api_key: cfg.reformulation_api_key.clone(),
        provider: cfg.reformulation_provider.clone(),
        active_profile: one_based,
        profiles,
        assist_model_override: cfg.reformulation_assist_model.clone(),
    }
}

/// Every field other than the model tier, the active profile id and the four
/// global pipeline values (decoding preset, translation switch and target,
/// reformulation switch) is the same in `a` and `b`.
pub open spec fn same_other_fields(a: AppConfig, b: AppConfig) -> bool {
    &&& b.language == a.language
    &&& b.insert_mode == a.insert_mode
    &&& b.ptt_shortcut == a.ptt_shortcut
    &&& b.shortcut_transcribe_file == a.shortcut_transcribe_file
    &&& b.shortcut_ai_assist == a.shortcut_ai_assist
    &&& b.shortcut_cycle_profile == a.shortcut_cycle_profile
    &&& b.status_sounds_enabled == a.status_sounds_enabled
    &&& b.reformulation_api_key == a.reformulation_api_key
    &&& b.reformulation_provider == a.reformulation_provider
    &&& b.reformulation_active_profile == a.reformulation_active_profile
    &&& b.reformulation_profiles == a.reformulation_profiles
    &&& b.reformulation_assist_model == a.reformulation_assist_model
    &&& b.stt_mode == a.stt_mode
    &&& b.stt_cloud_model == a.stt_cloud_model
    &&& b.stt_groq_api_key == a.stt_groq_api_key
    &&& b.pipeline_profiles_migrated == a.pipeline_profiles_migrated
}

/// `b` is `a` with at most its model tier changed.
pub open spec fn same_except_tier(a: AppConfig, b: AppConfig) -> bool {
    &&& same_other_fields(a, b)
    &&& b.reformulation_active_profile_id == a.reformulation_active_profile_id
    &&& b.decode_profile == a.decode_profile
    &&& b.translate_enabled == a.translate_enabled
    &&& b.translate_target == a.translate_target
    &&& b.reformulation_enabled == a.reformulation_enabled
}

/// Whisper runs on the GPU when the build has GPU support and an NVIDIA GPU answers.
pub fn whisper_should_use_gpu(gpu_build: bool, nvidia_gpu: bool) -> (r: bool)
    ensures
        r == (gpu_build && nvidia_gpu),
{
    gpu_build && nvidia_gpu
}

/// A GPU-only tier while Whisper does not use the GPU falls back to `small`.
pub fn downgrade_gpu_only_if_unavailable(cfg: &mut AppConfig, use_gpu: bool)
    ensures
        final(cfg).model_tier@ == (if tier_from_text(old(cfg).model_tier@).needs_gpu() && !use_gpu {
            "small"@
        } else {
            old(cfg).model_tier@
        }),
        same_except_tier(*old(cfg), *final(cfg)),
{
    let t = ModelTier::from_suggested_tier(cfg.model_tier.as_str());
    if t.gpu_only() && !use_gpu {
        cfg.model_tier = owned("small");
    }
}

/// Downloading a GPU-only tier is refused while Whisper does not use the GPU.
pub fn download_refusal(tier: ModelTier, use_gpu: bool) -> (r: Option<String>)
    ensures
        tier.needs_gpu() && !use_gpu ==> (r matches Some(e) && e@
            == "Ce mod\u{e8}le n\u{e9}cessite Whisper GPU (CUDA). Choisissez tiny / base / small, ou utilisez la build avec support GPU."@),
        !(tier.needs_gpu() && !use_gpu) ==> r is None,
{
    if tier.gpu_only() && !use_gpu {
        Some(
            owned(
                "Ce mod\u{e8}le n\u{e9}cessite Whisper GPU (CUDA). Choisissez tiny / base / small, ou utilisez la build avec support GPU.",
            ),
        )
    } else {
        None
    }
}

/// After the model file of `deleted` is removed: a configuration that selected it
/// falls back to `tiny` (and the caller saves it and unloads Whisper).
pub fn reset_tier_after_delete(cfg: &mut AppConfig, deleted: ModelTier) -> (changed: bool)
    ensures
        changed == (old(cfg).model_tier@ == deleted.slug()),
        changed ==> final(cfg).model_tier@ == "tiny"@,
        !changed ==> final(cfg).model_tier == old(cfg).model_tier,
        same_except_tier(*old(cfg), *final(cfg)),
{
    let slug = deleted.slug_str();
    if crate::text::str_eq(cfg.model_tier.as_str(), slug) {
        cfg.model_tier = owned("tiny");
        true
    } else {
        false
    }
}

// ---------------------------------------------------------------------------
// Cycling through profiles
// ---------------------------------------------------------------------------

/// What the UI is told after the active profile changed.
#[derive(Debug)]
pub struct ProfileCycle {
    /// 1-based index of the new active profile.
    pub profile_index: usize,
    pub profile_id: String,
    pub profile_name: String,
    /// Direction of the pill animation: forward on odd 1-based indices.
    pub anim_forward: bool,
    pub reformulation_enabled: bool,
}

/// Index of the profile after the one whose id is exactly `active` (after the
/// first profile when none is), wrapping around.
pub open spec fn next_index(ps: Seq<ReformulationProfile>, active: Seq<char>) -> int {
    let cur = match index_of_id(ps, active, 0) {
        Some(k) => k,
        None => 0,
    };
    (cur + 1) % (ps.len() as int)
}

/// The active id after one cycle.
pub open spec fn next_active_id(ps: Seq<ReformulationProfile>, active: Seq<char>) -> Seq<char> {
    ps[next_index(ps, active)].id@
}

/// The active id after `m` cycles.
pub open spec fn cycle_n(ps: Seq<ReformulationProfile>, active: Seq<char>, m: nat) -> Seq<char>
    decreases m,
{
    if m == 0 {
        active
    } else {
        cycle_n(ps, next_active_id(ps, active), (m - 1) as nat)
    }
}

/// Index of the first profile whose id is exactly `id`.
fn position_exact(ps: &Vec<ReformulationProfile>, id: &String) -> (r: Option<usize>)
    ensures
        r matches Some(k) ==> index_of_id(ps@, id@, 0) == Some(k as int) && k < ps@.len(),
        r is None ==> index_of_id(ps@, id@, 0) is None,
{
    let n = ps.len();
    let mut i: usize = 0;
    while i < n
        invariant
            n == ps@.len(),
            i <= n,
            index_of_id(ps@, id@, 0) == index_of_id(ps@, id@, i as int),
        decreases n - i,
    {
        if ps[i].id == *id {
            return Some(i);
        }
        i = i + 1;
    }
    None
}

/// Makes the next profile active (1 → … → n → 1) and syncs the globals;
/// nothing happens without profiles.
pub fn cycle_active_profile(cfg: &mut AppConfig) -> (r: Option<ProfileCycle>)
    ensures
        old(cfg).reformulation_profiles@.len() == 0 ==> r is None && *final(cfg) == *old(cfg),
        old(cfg).reformulation_profiles@.len() > 0 ==> {
            let ps = old(cfg).reformulation_profiles@;
            let k = next_index(ps, old(cfg).reformulation_active_profile_id@);
            &&& same_other_fields(*old(cfg), *final(cfg))
            &&& final(cfg).model_tier == old(cfg).model_tier
            &&& final(cfg).reformulation_active_profile_id@ == ps[k].id@
            &&& globals_of(*final(cfg)) == synced_globals(*final(cfg), globals_of(*old(cfg)))
            &&& r matches Some(c) && c.profile_index == k + 1 && c.profile_id@ == ps[k].id@
                && c.profile_name@ == ps[k].profile_name@ && c.anim_forward == ((k + 1) % 2 == 1)
                && c.reformulation_enabled == ps[k].reformulation_enabled
        },
{
    let n = cfg.reformulation_profiles.len();
    if n == 0 {
        return None;
    }
    let cur: usize = match position_exact(&cfg.reformulation_profiles, &cfg.reformulation_active_profile_id) {
        Some(k) => k,
        None => 0,
    };
    let next = (cur + 1) % n;
    let id = cfg.reformulation_profiles[next].id.clone();
    cfg.reformulation_active_profile_id = id;
    sync_globals_from_active_profile(cfg);
    let name = cfg.reformulation_profiles[next].profile_name.clone();
    let profile_id = cfg.reformulation_profiles[next].id.clone();
    let reformulation_enabled = cfg.reformulation_profiles[next].reformulation_enabled;
    let next_1based = next + 1;
    let anim_forward = next_1based % 2 == 1;
    Some(
        ProfileCycle {
            profile_index: next_1based,
            profile_id,
            profile_name: name,
            anim_forward,
            reformulation_enabled,
        },
    )
}

/// With usable ids, one cycle moves the active profile from index `k` to `k + 1`
/// (wrapping around).
pub proof fn lemma_cycle_step(ps: Seq<ReformulationProfile>, k: int)
    requires
        ids_valid(profile_ids(ps)),
        0 <= k < ps.len(),
    ensures
        next_active_id(ps, ps[k].id@) == ps[(k + 1) % (ps.len() as int)].id@,
{
    lemma_index_of_id(ps, ps[k].id@, 0);
    let r = index_of_id(ps, ps[k].id@, 0);
    let j = r->0;
    if j != k {
        assert(profile_ids(ps)[j] == profile_ids(ps)[k]);
        if j < k {
            assert(profile_ids(ps)[j] != profile_ids(ps)[k]);
        }
    }
}

/// With usable ids, `m` cycles from profile `k` lead to profile `(k + m) mod n`;
/// in particular `n` cycles come back to the starting profile.
pub proof fn lemma_cycle_returns(ps: Seq<ReformulationProfile>, k: int, m: nat)
    requires
        ids_valid(profile_ids(ps)),
        0 <= k < ps.len(),
    ensures
        cycle_n(ps, ps[k].id@, m) == ps[(k + m) % (ps.len() as int)].id@,
        cycle_n(ps, ps[k].id@, ps.len()) == ps[k].id@,
{
    let n = ps.len() as int;
    lemma_cycle_returns_general(ps, k, m);
    lemma_cycle_returns_general(ps, k, ps.len());
    vstd::arithmetic::div_mod::lemma_mod_add_multiples_vanish(k, n);
    vstd::arithmetic::div_mod::lemma_small_mod(k as nat, n as nat);
    assert(n + k == k + n);
}

proof fn lemma_cycle_returns_general(ps: Seq<ReformulationProfile>, k: int, m: nat)
    requires
        ids_valid(profile_ids(ps)),
        0 <= k < ps.len(),
    ensures
        cycle_n(ps, ps[k].id@, m) == ps[(k + m) % (ps.len() as int)].id@,
    decreases m,
{
    let n = ps.len() as int;
    if m == 0 {
        vstd::arithmetic::div_mod::lemma_small_mod(k as nat, n as nat);
    } else {
        lemma_cycle_step(ps, k);
        let k1 = (k + 1) % n;
        vstd::arithmetic::div_mod::lemma_mod_pos_bound(k + 1, n);
        lemma_cycle_returns_general(ps, k1, (m - 1) as nat);
        vstd::arithmetic::div_mod::lemma_add_mod_noop_right((m - 1) as int, k + 1, n);
        assert((m - 1) + k1 == k1 + (m - 1));
        assert((m - 1) + (k + 1) == k + m);
    }
}

} // verus!
