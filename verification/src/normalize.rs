//! Normalisation of a whole settings file, and what the dictation pipeline
//! reads from the active profile.

use vstd::prelude::*;
use crate::text::{decimal, decimal_string, from_chars, is_blank, lower, owned, trim, trimmed};
use crate::config::{
    default_reformulation_profiles, distinct_shortcuts, ensure_distinct_global_shortcuts,
    is_default_profile_list, lemma_distinct_shortcuts_differ, norm_decode, norm_model_tier,
    norm_provider, norm_stt_cloud_model, norm_stt_mode, norm_target, normalize_decode_text,
    normalize_model_tier_text, normalize_provider_text, normalize_stt_cloud_model_text,
    normalize_stt_mode_text, normalize_target_text, AppConfig, ReformulationProfile,
    default_profile_name, default_profile_prompt,
};
use crate::profiles::{
    active_index, active_profile_index, ids_assigned, ids_valid, profile_ids,
    resolve_active_id, resolve_reformulation_active_profile, shape,
};

verus! {

/// The plain values of a profile other than its id:
/// (name, model, prompt, decoding preset, translate, target language, reformulate).
pub type Shape = (Seq<char>, Seq<char>, Seq<char>, Seq<char>, bool, Seq<char>, bool);

/// The pipeline values a profile takes over from the globals when migrated:
/// (decoding preset, translate, target language, reformulate).
pub type PipelineGlobals = (Seq<char>, bool, Seq<char>, bool);

/// The global pipeline values once normalised.
pub open spec fn migration_globals(c: AppConfig) -> PipelineGlobals {
    (
        norm_decode(c.decode_profile@),
        c.translate_enabled,
        norm_target(c.translate_target@),
        c.reformulation_enabled,
    )
}

/// The `i`-th built-in profile.
pub open spec fn default_shape(i: int) -> Shape {
    (
        default_profile_name(i),
        "llama-3.1-8b-instant"@,
        default_profile_prompt(i),
        "balanced"@,
        false,
        "en"@,
        false,
    )
}

/// A profile's display name: trimmed, or `Profile <i + 1>` when blank.
pub open spec fn profile_name_for(name: Seq<char>, i: int) -> Seq<char> {
    if trim(name).len() == 0 {
        "Profile "@ + decimal((i + 1) as nat)
    } else {
        trim(name)
    }
}

/// A profile after normalisation: its pipeline values taken over from `g` when
/// it is migrated, its name filled in, decoding preset and target normalised.
pub open spec fn normalized_shape(s: Shape, i: int, g: Option<PipelineGlobals>) -> Shape {
    let (dec, tr, tt, re) = match g {
        Some(g) => g,
        None => (s.3, s.4, s.5, s.6),
    };
    (profile_name_for(s.0, i), s.1, s.2, norm_decode(dec), tr, norm_target(tt), re)
}

/// The `i`-th profile before normalisation: the built-in ones when the list is empty.
pub open spec fn source_shape(c: AppConfig, i: int) -> Shape {
    if c.reformulation_profiles@.len() == 0 {
        default_shape(i)
    } else {
        shape(c.reformulation_profiles@[i])
    }
}

/// The global pipeline values after syncing with the active profile.
pub open spec fn synced_globals(f: AppConfig, fallback: PipelineGlobals) -> PipelineGlobals {
    match active_index(f) {
        Some(k) => (
            f.reformulation_profiles@[k].decode_profile@,
            f.reformulation_profiles@[k].translate_enabled,
            f.reformulation_profiles@[k].translate_target@,
            f.reformulation_profiles@[k].reformulation_enabled,
        ),
        None => fallback,
    }
}

pub open spec fn globals_of(c: AppConfig) -> PipelineGlobals {
    (c.decode_profile@, c.translate_enabled, c.translate_target@, c.reformulation_enabled)
}

/// `f` is what `normalize_config` makes of `o` (up to the random ids it draws).
pub open spec fn normalized_from(o: AppConfig, f: AppConfig) -> bool {
    let n = if o.reformulation_profiles@.len() == 0 {
        3
    } else {
        o.reformulation_profiles@.len()
    };
    let g = if o.pipeline_profiles_migrated {
        None
    } else {
        Some(migration_globals(o))
    };
    let ps = f.reformulation_profiles@;
    &&& f.language == o.language
    &&& f.insert_mode == o.insert_mode
    &&& f.status_sounds_enabled == o.status_sounds_enabled
    &&& f.reformulation_api_key == o.reformulation_api_key
    &&& f.model_tier@ == norm_model_tier(o.model_tier@)
    &&& (f.ptt_shortcut@, f.shortcut_transcribe_file@, f.shortcut_ai_assist@, f.shortcut_cycle_profile@)
        == distinct_shortcuts(
        o.ptt_shortcut@,
        o.shortcut_transcribe_file@,
        o.shortcut_ai_assist@,
        o.shortcut_cycle_profile@,
    )
    &&& f.reformulation_provider@ == norm_provider(o.reformulation_provider@)
    &&& ps.len() == n
    &&& forall|i: int| 0 <= i < n ==> shape(#[trigger] ps[i]) == normalized_shape(source_shape(o, i), i, g)
    &&& ids_valid(profile_ids(ps))
    &&& forall|i: int|
        0 <= i < o.reformulation_profiles@.len() && trim(o.reformulation_profiles@[i].id@).len() > 0
            && !profile_ids(ps).take(i).contains(o.reformulation_profiles@[i].id@)
            ==> (#[trigger] ps[i]).id@ == o.reformulation_profiles@[i].id@
    &&& forall|i: int|
        0 <= i < n ==> trim((#[trigger] ps[i]).id@) == ps[i].id@ || (i
            < o.reformulation_profiles@.len() && ps[i].id@ == o.reformulation_profiles@[i].id@)
    &&& f.reformulation_active_profile_id@ == resolve_active_id(
        o.reformulation_active_profile_id@,
        o.reformulation_active_profile,
        profile_ids(ps),
    )
    &&& f.reformulation_active_profile is None
    &&& f.pipeline_profiles_migrated
    &&& f.reformulation_assist_model@ == trim(o.reformulation_assist_model@)
    &&& f.stt_mode@ == norm_stt_mode(o.stt_mode@)
    &&& f.stt_cloud_model@ == norm_stt_cloud_model(o.stt_cloud_model@)
    &&& f.stt_groq_api_key@ == trim(o.stt_groq_api_key@)
    &&& globals_of(f) == synced_globals(f, migration_globals(o))
}

/// Copies the profile with a new shape.
fn reshaped(p: &ReformulationProfile, name: String, decode: String, tr: bool, tt: String, re: bool) -> (r: ReformulationProfile)
    ensures
        r.id == p.id,
        shape(r) == (name@, p.model@, p.prompt@, decode@, tr, tt@, re),
{
    ReformulationProfile {
        id: p.id.clone(),
        profile_name: name,
        model: p.model.clone(),
        prompt: p.prompt.clone(),
        decode_profile: decode,
        translate_enabled: tr,
        translate_target: tt,
        reformulation_enabled: re,
    }
}

fn profile_name_exec(name: &str, i: usize) -> (r: String)
    requires
        i < usize::MAX,
    ensures
        r@ == profile_name_for(name@, i as int),
{
    if is_blank(name) {
        let mut r = owned("Profile ");
        let digits = decimal_string(i + 1);
        let d = from_chars(digits.as_slice());
        r.append(d.as_str());
        r
    } else {
        trimmed(name)
    }
}

/// Runs the one-shot migration of pipeline values into the profiles, then fills
/// in names and normalises each profile's decoding preset and target language.
fn migrate_and_tidy_profiles(cfg: &mut AppConfig)
    ensures
        final(cfg).reformulation_profiles@.len() == old(cfg).reformulation_profiles@.len(),
        profile_ids(final(cfg).reformulation_profiles@) == profile_ids(old(cfg).reformulation_profiles@),
        forall|i: int|
            0 <= i < old(cfg).reformulation_profiles@.len() ==> shape(
                #[trigger] final(cfg).reformulation_profiles@[i],
            ) == normalized_shape(
                shape(old(cfg).reformulation_profiles@[i]),
                i,
                if old(cfg).pipeline_profiles_migrated {
                    None
                } else {
                    Some(globals_of(*old(cfg)))
                },
            ),
        final(cfg).pipeline_profiles_migrated,
        final(cfg).reformulation_active_profile_id == old(cfg).reformulation_active_profile_id,
        final(cfg).reformulation_active_profile == old(cfg).reformulation_active_profile,
        globals_of(*final(cfg)) == globals_of(*old(cfg)),
        final(cfg).language == old(cfg).language,
        final(cfg).insert_mode == old(cfg).insert_mode,
        final(cfg).model_tier == old(cfg).model_tier,
        final(cfg).ptt_shortcut == old(cfg).ptt_shortcut,
        final(cfg).shortcut_transcribe_file == old(cfg).shortcut_transcribe_file,
        final(cfg).shortcut_ai_assist == old(cfg).shortcut_ai_assist,
        final(cfg).shortcut_cycle_profile == old(cfg).shortcut_cycle_profile,
        final(cfg).status_sounds_enabled == old(cfg).status_sounds_enabled,
        final(cfg).reformulation_api_key == old(cfg).reformulation_api_key,
        final(cfg).reformulation_provider == old(cfg).reformulation_provider,
        final(cfg).reformulation_assist_model == old(cfg).reformulation_assist_model,
        final(cfg).stt_mode == old(cfg).stt_mode,
        final(cfg).stt_cloud_model == old(cfg).stt_cloud_model,
        final(cfg).stt_groq_api_key == old(cfg).stt_groq_api_key,
{
    let migrate = !cfg.pipeline_profiles_migrated;
    let ghost g: Option<PipelineGlobals> = if migrate {
        Some(globals_of(*cfg))
    } else {
        None
    };
    let n = cfg.reformulation_profiles.len();
    let mut out: Vec<ReformulationProfile> = Vec::new();
    let mut i: usize = 0;
    while i < n
        invariant
            n == cfg.reformulation_profiles@.len(),
            i <= n,
            out@.len() == i,
            migrate == !cfg.pipeline_profiles_migrated,
            g == (if cfg.pipeline_profiles_migrated {
                None
            } else {
                Some(globals_of(*cfg))
            }),
            forall|k: int| 0 <= k < i ==> (#[trigger] out@[k]).id@ == cfg.reformulation_profiles@[k].id@,
            forall|k: int|
                0 <= k < i ==> shape(#[trigger] out@[k]) == normalized_shape(
                    shape(cfg.reformulation_profiles@[k]),
                    k,
                    g,
                ),
        decreases n - i,
    {
        let p = &cfg.reformulation_profiles[i];
        let name = profile_name_exec(p.profile_name.as_str(), i);
        let (dec, tt) = if migrate {
            (normalize_decode_text(cfg.decode_profile.as_str()), normalize_target_text(cfg.translate_target.as_str()))
        } else {
            (normalize_decode_text(p.decode_profile.as_str()), normalize_target_text(p.translate_target.as_str()))
        };
        let tr = if migrate { cfg.translate_enabled } else { p.translate_enabled };
        let re = if migrate { cfg.reformulation_enabled } else { p.reformulation_enabled };
        let q = reshaped(p, name, dec, tr, tt, re);
        let ghost before = out@;
        out.push(q);
        proof {
            assert forall|k: int| 0 <= k < i + 1 implies (#[trigger] out@[k]).id@
                == cfg.reformulation_profiles@[k].id@ by {
                if k < i {
                    assert(out@[k] == before[k]);
                }
            }
            assert forall|k: int| 0 <= k < i + 1 implies shape(#[trigger] out@[k])
                == normalized_shape(shape(cfg.reformulation_profiles@[k]), k, g) by {
                if k < i {
                    assert(out@[k] == before[k]);
                }
            }
        }
        i = i + 1;
    }
    proof {
        assert(profile_ids(out@) =~= profile_ids(cfg.reformulation_profiles@));
    }
    cfg.reformulation_profiles = out;
    cfg.pipeline_profiles_migrated = true;
}

/// Aligns the global pipeline values (kept for the UI and older code) with the active profile.
pub fn sync_globals_from_active_profile(cfg: &mut AppConfig)
    ensures
        globals_of(*final(cfg)) == synced_globals(*old(cfg), globals_of(*old(cfg))),
        active_index(*final(cfg)) == active_index(*old(cfg)),
        final(cfg).reformulation_profiles == old(cfg).reformulation_profiles,
        final(cfg).reformulation_active_profile_id == old(cfg).reformulation_active_profile_id,
        final(cfg).reformulation_active_profile == old(cfg).reformulation_active_profile,
        final(cfg).language == old(cfg).language,
        final(cfg).insert_mode == old(cfg).insert_mode,
        final(cfg).model_tier == old(cfg).model_tier,
        final(cfg).ptt_shortcut == old(cfg).ptt_shortcut,
        final(cfg).shortcut_transcribe_file == old(cfg).shortcut_transcribe_file,
        final(cfg).shortcut_ai_assist == old(cfg).shortcut_ai_assist,
        final(cfg).shortcut_cycle_profile == old(cfg).shortcut_cycle_profile,
        final(cfg).status_sounds_enabled == old(cfg).status_sounds_enabled,
        final(cfg).reformulation_api_key == old(cfg).reformulation_api_key,
        final(cfg).reformulation_provider == old(cfg).reformulation_provider,
        final(cfg).reformulation_assist_model == old(cfg).reformulation_assist_model,
        final(cfg).stt_mode == old(cfg).stt_mode,
        final(cfg).stt_cloud_model == old(cfg).stt_cloud_model,
        final(cfg).stt_groq_api_key == old(cfg).stt_groq_api_key,
        final(cfg).pipeline_profiles_migrated == old(cfg).pipeline_profiles_migrated,
{
    let idx = active_profile_index(cfg);
    match idx {
        Some(k) => {
            let dec = cfg.reformulation_profiles[k].decode_profile.clone();
            let tr = cfg.reformulation_profiles[k].translate_enabled;
            let tt = cfg.reformulation_profiles[k].translate_target.clone();
            let re = cfg.reformulation_profiles[k].reformulation_enabled;
            cfg.decode_profile = dec;
            cfg.translate_enabled = tr;
            cfg.translate_target = tt;
            cfg.reformulation_enabled = re;
        },
        None => {},
    }
}

/// Normalises a settings file as read from disk or sent by the UI (see `normalized_from`).
pub fn normalize_config(cfg: &mut AppConfig)
    ensures
        normalized_from(*old(cfg), *final(cfg)),
{
    let ghost o = *cfg;
    cfg.model_tier = normalize_model_tier_text(cfg.model_tier.as_str());
    cfg.translate_target = normalize_target_text(cfg.translate_target.as_str());
    cfg.decode_profile = normalize_decode_text(cfg.decode_profile.as_str());
    ensure_distinct_global_shortcuts(cfg);
    cfg.reformulation_provider = normalize_provider_text(cfg.reformulation_provider.as_str());
    if cfg.reformulation_profiles.len() == 0 {
        cfg.reformulation_profiles = default_reformulation_profiles();
    }
    let ghost before_resolve = *cfg;
    resolve_reformulation_active_profile(cfg);
    let ghost after_resolve = *cfg;
    migrate_and_tidy_profiles(cfg);
    let ghost after_tidy = *cfg;
    cfg.reformulation_assist_model = trimmed(cfg.reformulation_assist_model.as_str());
    cfg.stt_mode = normalize_stt_mode_text(cfg.stt_mode.as_str());
    cfg.stt_cloud_model = normalize_stt_cloud_model_text(cfg.stt_cloud_model.as_str());
    cfg.stt_groq_api_key = trimmed(cfg.stt_groq_api_key.as_str());
    let ghost before_sync = *cfg;
    sync_globals_from_active_profile(cfg);
    proof {
        let ps = cfg.reformulation_profiles@;
        assert(globals_of(after_resolve) == migration_globals(o));
        assert(active_index(*cfg) == active_index(before_sync));
        assert(synced_globals(before_sync, globals_of(before_sync)) == synced_globals(
            *cfg,
            migration_globals(o),
        ));
        assert forall|i: int| 0 <= i < ps.len() implies shape(#[trigger] ps[i])
            == normalized_shape(
            source_shape(o, i),
            i,
            if o.pipeline_profiles_migrated {
                None
            } else {
                Some(migration_globals(o))
            },
        ) by {
            if o.reformulation_profiles@.len() == 0 {
                assert(is_default_profile_list(before_resolve.reformulation_profiles@));
                assert(crate::config::is_uuid_text(before_resolve.reformulation_profiles@[i].id@));
            }
            assert(shape(before_resolve.reformulation_profiles@[i]) == source_shape(o, i));
            assert(shape(after_resolve.reformulation_profiles@[i]) == shape(
                before_resolve.reformulation_profiles@[i],
            ));
        }
        assert(profile_ids(ps) == profile_ids(after_resolve.reformulation_profiles@));
        assert forall|i: int|
            0 <= i < o.reformulation_profiles@.len() && trim(o.reformulation_profiles@[i].id@).len()
                > 0 && !profile_ids(ps).take(i).contains(
                o.reformulation_profiles@[i].id@,
            ) implies (#[trigger] ps[i]).id@ == o.reformulation_profiles@[i].id@ by {
            assert(profile_ids(ps)[i] == ps[i].id@);
            assert(profile_ids(after_resolve.reformulation_profiles@)[i]
                == after_resolve.reformulation_profiles@[i].id@);
        }
        assert forall|i: int| 0 <= i < ps.len() implies trim((#[trigger] ps[i]).id@) == ps[i].id@
            || (i < o.reformulation_profiles@.len() && ps[i].id@
            == o.reformulation_profiles@[i].id@) by {
            assert(profile_ids(ps)[i] == ps[i].id@);
            assert(profile_ids(after_resolve.reformulation_profiles@)[i]
                == after_resolve.reformulation_profiles@[i].id@);
            if o.reformulation_profiles@.len() == 0 {
                assert(is_default_profile_list(before_resolve.reformulation_profiles@));
                crate::config::lemma_uuid_text_trim(before_resolve.reformulation_profiles@[i].id@);
            }
        }
    }
}


// ---------------------------------------------------------------------------
// Well-formedness of a normalised configuration
// ---------------------------------------------------------------------------

pub open spec fn is_decode_preset(s: Seq<char>) -> bool {
    s == "fast"@ || s == "balanced"@ || s == "accurate"@
}

/// What every normalised configuration satisfies.
pub open spec fn config_well_formed(c: AppConfig) -> bool {
    let ps = c.reformulation_profiles@;
    &&& (c.model_tier@ == "tiny"@ || c.model_tier@ == "base"@ || c.model_tier@ == "small"@
        || c.model_tier@ == "medium"@ || c.model_tier@ == "large-v3-turbo"@)
    &&& is_decode_preset(c.decode_profile@)
    &&& c.translate_target@.len() > 0
    &&& (c.reformulation_provider@ == "groq"@ || c.reformulation_provider@ == "openrouter"@)
    &&& (c.stt_mode@ == "local"@ || c.stt_mode@ == "cloud-groq"@)
    &&& (c.stt_cloud_model@ == "whisper-large-v3"@ || c.stt_cloud_model@
        == "whisper-large-v3-turbo"@)
    &&& c.ptt_shortcut@ != c.shortcut_transcribe_file@
    &&& c.ptt_shortcut@ != c.shortcut_ai_assist@
    &&& c.ptt_shortcut@ != c.shortcut_cycle_profile@
    &&& c.shortcut_transcribe_file@ != c.shortcut_ai_assist@
    &&& c.shortcut_transcribe_file@ != c.shortcut_cycle_profile@
    &&& c.shortcut_ai_assist@ != c.shortcut_cycle_profile@
    &&& ps.len() > 0
    &&& ids_valid(profile_ids(ps))
    &&& profile_ids(ps).contains(c.reformulation_active_profile_id@)
    &&& c.reformulation_active_profile is None
    &&& c.pipeline_profiles_migrated
    &&& forall|i: int|
        0 <= i < ps.len() ==> {
            &&& is_decode_preset((#[trigger] ps[i]).decode_profile@)
            &&& ps[i].translate_target@.len() > 0
            &&& ps[i].profile_name@.len() > 0
        }
}

proof fn lemma_norm_target_nonempty(s: Seq<char>)
    ensures
        norm_target(s).len() > 0,
{
    reveal_strlit("en");
}

proof fn lemma_profile_name_nonempty(name: Seq<char>, i: int)
    ensures
        profile_name_for(name, i).len() > 0,
{
    reveal_strlit("Profile ");
}

pub proof fn lemma_resolved_active_is_an_id(active: Seq<char>, legacy: Option<u8>, ids: Seq<Seq<char>>)
    requires
        ids.len() > 0,
    ensures
        ids.contains(resolve_active_id(active, legacy, ids)),
{
    let r = resolve_active_id(active, legacy, ids);
    if trim(active).len() == 0 {
        match legacy {
            Some(k) => if 1 <= k && k <= ids.len() {
                assert(ids[k - 1] == r);
            } else {
                assert(ids[0] == r);
            },
            None => assert(ids[0] == r),
        }
    } else if !ids.contains(trim(active)) {
        assert(ids[0] == r);
    }
}

/// Whatever settings file it starts from, normalisation yields a well-formed
/// configuration: every choice is one of its known values, the four global
/// shortcuts differ, the profiles have usable ids and the active id names one of them.
pub proof fn lemma_normalized_is_well_formed(o: AppConfig, f: AppConfig)
    requires
        normalized_from(o, f),
    ensures
        config_well_formed(f),
{
    lemma_distinct_shortcuts_differ(
        o.ptt_shortcut@,
        o.shortcut_transcribe_file@,
        o.shortcut_ai_assist@,
        o.shortcut_cycle_profile@,
    );
    let ps = f.reformulation_profiles@;
    let g = if o.pipeline_profiles_migrated {
        None
    } else {
        Some(migration_globals(o))
    };
    assert forall|i: int| 0 <= i < ps.len() implies {
        &&& is_decode_preset((#[trigger] ps[i]).decode_profile@)
        &&& ps[i].translate_target@.len() > 0
        &&& ps[i].profile_name@.len() > 0
    } by {
        assert(shape(ps[i]) == normalized_shape(source_shape(o, i), i, g));
        let (dec, tr, tt, re) = match g {
            Some(g) => g,
            None => (source_shape(o, i).3, source_shape(o, i).4, source_shape(o, i).5, source_shape(o, i).6),
        };
        lemma_norm_target_nonempty(tt);
        lemma_profile_name_nonempty(source_shape(o, i).0, i);
    }
    lemma_norm_target_nonempty(o.translate_target@);
    lemma_resolved_active_is_an_id(
        o.reformulation_active_profile_id@,
        o.reformulation_active_profile,
        profile_ids(ps),
    );
    match active_index(f) {
        Some(k) => {
            crate::profiles::lemma_index_of_id(ps, trim(f.reformulation_active_profile_id@), 0);
            assert(is_decode_preset(ps[k].decode_profile@));
        },
        None => {},
    }
}

} // verus!
