//! Laws of settings normalisation: normalising twice changes nothing.

use vstd::prelude::*;
use crate::text::{
    byte_len, decimal, digit_char, is_ws, keys_from, lemma_keys_are_clean, lemma_lower_trim_idempotent,
    lemma_slug_is_normal, lemma_trim_clean_ends, lemma_trim_idempotent, lower, replace_char, slug_from,
    trim,
};
use crate::model::normalize_tier_text;
use crate::config::{
    assist_fallbacks, cycle_fallbacks, distinct_shortcuts, file_fallbacks, first_free,
    lemma_distinct_shortcuts_differ, norm_decode, norm_model_tier, norm_provider, norm_shortcut,
    norm_stt_cloud_model, norm_stt_mode, norm_target, AppConfig, ReformulationProfile,
};
use crate::profiles::{active_index, ids_valid, index_of_id, lemma_index_of_id, profile_ids, shape};
use crate::normalize::{
    lemma_resolved_active_is_an_id, normalized_from, normalized_shape, PipelineGlobals, Shape,
};

verus! {

/// The fixed settings values are slugs.
proof fn lemma_fixed_values_are_slugs()
    ensures
        slug_from("fast"@, 0),
        slug_from("balanced"@, 0),
        slug_from("accurate"@, 0),
        slug_from("groq"@, 0),
        slug_from("openrouter"@, 0),
        slug_from("local"@, 0),
        slug_from("cloud-groq"@, 0),
        slug_from("whisper-large-v3"@, 0),
        slug_from("whisper-large-v3-turbo"@, 0),
        slug_from("en"@, 0),
        slug_from("tiny"@, 0),
        slug_from("base"@, 0),
        slug_from("small"@, 0),
        slug_from("medium"@, 0),
        slug_from("large-v3-turbo"@, 0),
{
    reveal_strlit("fast");
    reveal_strlit("balanced");
    reveal_strlit("accurate");
    reveal_strlit("groq");
    reveal_strlit("openrouter");
    reveal_strlit("local");
    reveal_strlit("cloud-groq");
    reveal_strlit("whisper-large-v3");
    reveal_strlit("whisper-large-v3-turbo");
    reveal_strlit("en");
    reveal_strlit("tiny");
    reveal_strlit("base");
    reveal_strlit("small");
    reveal_strlit("medium");
    reveal_strlit("large-v3-turbo");
    reveal_with_fuel(slug_from, 25);
}

pub proof fn lemma_norm_decode_idempotent(s: Seq<char>)
    ensures
        norm_decode(norm_decode(s)) == norm_decode(s),
{
    lemma_fixed_values_are_slugs();
    lemma_slug_is_normal("fast"@);
    lemma_slug_is_normal("balanced"@);
    lemma_slug_is_normal("accurate"@);
}

pub proof fn lemma_norm_provider_idempotent(s: Seq<char>)
    ensures
        norm_provider(norm_provider(s)) == norm_provider(s),
{
    lemma_fixed_values_are_slugs();
    lemma_slug_is_normal("groq"@);
    lemma_slug_is_normal("openrouter"@);
}

pub proof fn lemma_norm_stt_idempotent(s: Seq<char>, t: Seq<char>)
    ensures
        norm_stt_mode(norm_stt_mode(s)) == norm_stt_mode(s),
        norm_stt_cloud_model(norm_stt_cloud_model(t)) == norm_stt_cloud_model(t),
{
    lemma_fixed_values_are_slugs();
    lemma_slug_is_normal("local"@);
    lemma_slug_is_normal("cloud-groq"@);
    lemma_slug_is_normal("whisper-large-v3"@);
    lemma_slug_is_normal("whisper-large-v3-turbo"@);
}

pub proof fn lemma_norm_target_idempotent(s: Seq<char>)
    ensures
        norm_target(norm_target(s)) == norm_target(s),
{
    lemma_fixed_values_are_slugs();
    lemma_slug_is_normal("en"@);
    lemma_lower_trim_idempotent(s);
}

proof fn lemma_slug_tier_text(s: Seq<char>)
    requires
        slug_from(s, 0),
    ensures
        normalize_tier_text(s) == s,
{
    lemma_slug_is_normal(s);
    assert(replace_char(s, '_', '-') =~= s);
}

pub proof fn lemma_norm_model_tier_idempotent(s: Seq<char>)
    ensures
        norm_model_tier(norm_model_tier(s)) == norm_model_tier(s),
{
    lemma_fixed_values_are_slugs();
    lemma_slug_tier_text("tiny"@);
    lemma_slug_tier_text("base"@);
    lemma_slug_tier_text("small"@);
    lemma_slug_tier_text("medium"@);
    lemma_slug_tier_text("large-v3-turbo"@);
}

pub proof fn lemma_profile_name_idempotent(name: Seq<char>, i: int)
    requires
        i >= 0,
    ensures
        crate::normalize::profile_name_for(crate::normalize::profile_name_for(name, i), i)
            == crate::normalize::profile_name_for(name, i),
{
    let y = crate::normalize::profile_name_for(name, i);
    if trim(name).len() == 0 {
        reveal_strlit("Profile ");
        crate::text::lemma_decimal_no_ws((i + 1) as nat);
        let d = decimal((i + 1) as nat);
        assert(y == "Profile "@ + d);
        assert(y[0] == 'P');
        assert(y.last() == d.last());
        assert(!is_ws(d[d.len() - 1]));
        lemma_trim_clean_ends(y);
    } else {
        lemma_trim_idempotent(name);
    }
}

// ---------------------------------------------------------------------------
// Shortcuts
// ---------------------------------------------------------------------------

/// A shortcut normalisation leaves alone: trimmed, not blank, at most 64 bytes.
pub open spec fn clean_shortcut(x: Seq<char>) -> bool {
    trim(x) == x && x.len() > 0 && byte_len(x) <= 64
}

proof fn lemma_shortcut_literals_clean()
    ensures
        clean_shortcut("Ctrl+Shift+Space"@),
        clean_shortcut("Ctrl+Shift+T"@),
        clean_shortcut("Ctrl+Alt+Space"@),
        clean_shortcut("Ctrl+Alt+Shift+P"@),
        forall|i: int| 0 <= i < 3 ==> clean_shortcut(#[trigger] file_fallbacks()[i]),
        forall|i: int| 0 <= i < 3 ==> clean_shortcut(#[trigger] assist_fallbacks()[i]),
        forall|i: int| 0 <= i < 3 ==> clean_shortcut(#[trigger] cycle_fallbacks()[i]),
{
    reveal_strlit("Ctrl+Shift+Space");
    reveal_strlit("Ctrl+Shift+T");
    reveal_strlit("Ctrl+Alt+Space");
    reveal_strlit("Ctrl+Alt+Shift+P");
    reveal_strlit("Ctrl+Shift+Y");
    reveal_strlit("Ctrl+Shift+U");
    reveal_strlit("Ctrl+Shift+I");
    reveal_strlit("Ctrl+Alt+Shift+Space");
    reveal_strlit("Ctrl+Shift+Alt+N");
    reveal_strlit("Ctrl+Alt+Shift+N");
    reveal_strlit("Ctrl+Alt+Shift+O");
    reveal_strlit("Ctrl+Alt+Shift+I");
    reveal_strlit("Ctrl+Alt+Shift+K");
    reveal_with_fuel(keys_from, 25);
    lemma_keys_are_clean("Ctrl+Shift+Space"@);
    lemma_keys_are_clean("Ctrl+Shift+T"@);
    lemma_keys_are_clean("Ctrl+Alt+Space"@);
    lemma_keys_are_clean("Ctrl+Alt+Shift+P"@);
    lemma_keys_are_clean("Ctrl+Shift+Y"@);
    lemma_keys_are_clean("Ctrl+Shift+U"@);
    lemma_keys_are_clean("Ctrl+Shift+I"@);
    lemma_keys_are_clean("Ctrl+Alt+Shift+Space"@);
    lemma_keys_are_clean("Ctrl+Shift+Alt+N"@);
    lemma_keys_are_clean("Ctrl+Alt+Shift+N"@);
    lemma_keys_are_clean("Ctrl+Alt+Shift+O"@);
    lemma_keys_are_clean("Ctrl+Alt+Shift+I"@);
    lemma_keys_are_clean("Ctrl+Alt+Shift+K"@);
}

proof fn lemma_norm_shortcut_clean(s: Seq<char>, d: Seq<char>)
    requires
        clean_shortcut(d),
    ensures
        clean_shortcut(norm_shortcut(s, d)),
{
    if !(trim(s).len() == 0 || byte_len(trim(s)) > 64) {
        lemma_trim_idempotent(s);
    }
}

proof fn lemma_norm_shortcut_fixed(x: Seq<char>, d: Seq<char>)
    requires
        clean_shortcut(x),
    ensures
        norm_shortcut(x, d) == x,
{
}

/// Normalising the four shortcuts a second time changes none of them.
pub proof fn lemma_distinct_shortcuts_idempotent(
    ptt: Seq<char>,
    file: Seq<char>,
    assist: Seq<char>,
    cycle: Seq<char>,
)
    ensures
        ({
            let (p, f, a, c) = distinct_shortcuts(ptt, file, assist, cycle);
            distinct_shortcuts(p, f, a, c) == (p, f, a, c)
        }),
{
    lemma_shortcut_literals_clean();
    lemma_distinct_shortcuts_differ(ptt, file, assist, cycle);
    let (p, f, a, c) = distinct_shortcuts(ptt, file, assist, cycle);
    let fc = seq![norm_shortcut(file, "Ctrl+Shift+T"@), "Ctrl+Shift+T"@] + file_fallbacks();
    let ac = seq![norm_shortcut(assist, "Ctrl+Alt+Space"@), "Ctrl+Alt+Space"@]
        + assist_fallbacks();
    let cc = seq![norm_shortcut(cycle, "Ctrl+Alt+Shift+P"@), "Ctrl+Alt+Shift+P"@]
        + cycle_fallbacks();
    lemma_norm_shortcut_clean(ptt, "Ctrl+Shift+Space"@);
    lemma_norm_shortcut_clean(file, "Ctrl+Shift+T"@);
    lemma_norm_shortcut_clean(assist, "Ctrl+Alt+Space"@);
    lemma_norm_shortcut_clean(cycle, "Ctrl+Alt+Shift+P"@);
    assert forall|i: int| 0 <= i < fc.len() implies clean_shortcut(#[trigger] fc[i]) by {
        if i >= 2 {
            assert(fc[i] == file_fallbacks()[i - 2]);
        }
    }
    assert forall|i: int| 0 <= i < ac.len() implies clean_shortcut(#[trigger] ac[i]) by {
        if i >= 2 {
            assert(ac[i] == assist_fallbacks()[i - 2]);
        }
    }
    assert forall|i: int| 0 <= i < cc.len() implies clean_shortcut(#[trigger] cc[i]) by {
        if i >= 2 {
            assert(cc[i] == cycle_fallbacks()[i - 2]);
        }
    }
    // each picked shortcut is one of its candidates, hence clean
    let jf = choose|j: int| 0 <= j < fc.len() && fc[j] == f;
    let ja = choose|j: int| 0 <= j < ac.len() && ac[j] == a;
    let jc = choose|j: int| 0 <= j < cc.len() && cc[j] == c;
    assert(clean_shortcut(fc[jf]));
    assert(clean_shortcut(ac[ja]));
    assert(clean_shortcut(cc[jc]));
    lemma_norm_shortcut_fixed(p, "Ctrl+Shift+Space"@);
    lemma_norm_shortcut_fixed(f, "Ctrl+Shift+T"@);
    lemma_norm_shortcut_fixed(a, "Ctrl+Alt+Space"@);
    lemma_norm_shortcut_fixed(c, "Ctrl+Alt+Shift+P"@);
    let fc2 = seq![f, "Ctrl+Shift+T"@] + file_fallbacks();
    let ac2 = seq![a, "Ctrl+Alt+Space"@] + assist_fallbacks();
    let cc2 = seq![c, "Ctrl+Alt+Shift+P"@] + cycle_fallbacks();
    assert(fc2[0] == f);
    assert(ac2[0] == a);
    assert(cc2[0] == c);
    let u1 = seq![p];
    let u2 = seq![p, f];
    let u3 = seq![p, f, a];
    assert(u1.len() == 1 && u1[0] == p);
    assert(u2.len() == 2 && u2[0] == p && u2[1] == f);
    assert(u3.len() == 3 && u3[0] == p && u3[1] == f && u3[2] == a);
    assert(!u1.contains(f));
    assert(!u2.contains(a));
    assert(!u3.contains(c));
    assert(first_free(fc2, u1) == f);
    assert(first_free(ac2, u2) == a);
    assert(first_free(cc2, u3) == c);
}


// ---------------------------------------------------------------------------
// The whole configuration
// ---------------------------------------------------------------------------

/// Two configurations hold the same settings, field by field, as plain values.
pub open spec fn same_settings(a: AppConfig, b: AppConfig) -> bool {
    let pa = a.reformulation_profiles@;
    let pb = b.reformulation_profiles@;
    &&& a.language@ == b.language@
    &&& a.insert_mode == b.insert_mode
    &&& a.model_tier@ == b.model_tier@
    &&& a.decode_profile@ == b.decode_profile@
    &&& a.ptt_shortcut@ == b.ptt_shortcut@
    &&& a.shortcut_transcribe_file@ == b.shortcut_transcribe_file@
    &&& a.shortcut_ai_assist@ == b.shortcut_ai_assist@
    &&& a.shortcut_cycle_profile@ == b.shortcut_cycle_profile@
    &&& a.status_sounds_enabled == b.status_sounds_enabled
    &&& a.translate_enabled == b.translate_enabled
    &&& a.translate_target@ == b.translate_target@
    &&& a.reformulation_enabled == b.reformulation_enabled
    &&& a.reformulation_api_key@ == b.reformulation_api_key@
    &&& a.reformulation_provider@ == b.reformulation_provider@
    &&& a.reformulation_active_profile_id@ == b.reformulation_active_profile_id@
    &&& a.reformulation_active_profile == b.reformulation_active_profile
    &&& pa.len() == pb.len()
    &&& profile_ids(pa) == profile_ids(pb)
    &&& forall|i: int| 0 <= i < pa.len() ==> shape(#[trigger] pa[i]) == shape(pb[i])
    &&& a.reformulation_assist_model@ == b.reformulation_assist_model@
    &&& a.stt_mode@ == b.stt_mode@
    &&& a.stt_cloud_model@ == b.stt_cloud_model@
    &&& a.stt_groq_api_key@ == b.stt_groq_api_key@
    &&& a.pipeline_profiles_migrated == b.pipeline_profiles_migrated
}

/// Every profile id is blank or has no surrounding whitespace.
pub open spec fn ids_blank_or_trimmed(ps: Seq<ReformulationProfile>) -> bool {
    forall|i: int|
        0 <= i < ps.len() ==> trim((#[trigger] ps[i]).id@).len() == 0 || trim(ps[i].id@)
            == ps[i].id@
}

proof fn lemma_normalized_shape_stable(s: Shape, i: int, g: Option<PipelineGlobals>)
    requires
        i >= 0,
    ensures
        normalized_shape(normalized_shape(s, i, g), i, None) == normalized_shape(s, i, g),
{
    lemma_profile_name_idempotent(s.0, i);
    let (dec, tr, tt, re) = match g {
        Some(g) => g,
        None => (s.3, s.4, s.5, s.6),
    };
    lemma_norm_decode_idempotent(dec);
    lemma_norm_target_idempotent(tt);
}

proof fn lemma_normalized_ids_trimmed(o: AppConfig, f: AppConfig)
    requires
        normalized_from(o, f),
        ids_blank_or_trimmed(o.reformulation_profiles@),
    ensures
        forall|i: int|
            0 <= i < f.reformulation_profiles@.len() ==> trim(
                (#[trigger] f.reformulation_profiles@[i]).id@,
            ) == f.reformulation_profiles@[i].id@ && trim(f.reformulation_profiles@[i].id@).len()
                > 0,
{
    let ps = f.reformulation_profiles@;
    assert forall|i: int| 0 <= i < ps.len() implies trim((#[trigger] ps[i]).id@) == ps[i].id@
        && trim(ps[i].id@).len() > 0 by {
        assert(profile_ids(ps)[i] == ps[i].id@);
        if i < o.reformulation_profiles@.len() {
            assert(trim(o.reformulation_profiles@[i].id@).len() == 0 || trim(
                o.reformulation_profiles@[i].id@,
            ) == o.reformulation_profiles@[i].id@);
        }
    }
}

proof fn lemma_renormalized_ids_kept(f: AppConfig, g: AppConfig, i: int)
    requires
        normalized_from(f, g),
        f.reformulation_profiles@.len() > 0,
        ids_valid(profile_ids(f.reformulation_profiles@)),
        0 <= i < f.reformulation_profiles@.len(),
    ensures
        forall|k: int|
            0 <= k <= i ==> (#[trigger] g.reformulation_profiles@[k]).id@
                == f.reformulation_profiles@[k].id@,
    decreases i,
{
    if i > 0 {
        lemma_renormalized_ids_kept(f, g, i - 1);
    }
    let fs = f.reformulation_profiles@;
    let gs = g.reformulation_profiles@;
    let pf = profile_ids(fs);
    let pg = profile_ids(gs);
    assert(pf[i] == fs[i].id@);
    assert(trim(pf[i]).len() > 0);
    if pg.take(i).contains(fs[i].id@) {
        let j = choose|j: int| 0 <= j < pg.take(i).len() && pg.take(i)[j] == fs[i].id@;
        assert(pg[j] == gs[j].id@);
        assert(gs[j].id@ == fs[j].id@);
        assert(pf[j] == fs[j].id@);
        assert(pf[j] == pf[i]);
    }
    assert(gs[i].id@ == fs[i].id@);
}

/// Normalising a normalised configuration changes nothing: every setting, every
/// profile (id and contents) and the active profile stay as they are. It holds
/// whenever the ids first read are blank or free of surrounding whitespace.
pub proof fn lemma_normalize_idempotent(o: AppConfig, f: AppConfig, g: AppConfig)
    requires
        ids_blank_or_trimmed(o.reformulation_profiles@),
        normalized_from(o, f),
        normalized_from(f, g),
    ensures
        same_settings(f, g),
{
    let fs = f.reformulation_profiles@;
    let gs = g.reformulation_profiles@;
    let n = fs.len();
    let go: Option<PipelineGlobals> = if o.pipeline_profiles_migrated {
        None
    } else {
        Some(crate::normalize::migration_globals(o))
    };
    // settings that are normalised one by one
    lemma_norm_model_tier_idempotent(o.model_tier@);
    lemma_distinct_shortcuts_idempotent(
        o.ptt_shortcut@,
        o.shortcut_transcribe_file@,
        o.shortcut_ai_assist@,
        o.shortcut_cycle_profile@,
    );
    lemma_norm_provider_idempotent(o.reformulation_provider@);
    lemma_norm_stt_idempotent(o.stt_mode@, o.stt_cloud_model@);
    lemma_trim_idempotent(o.reformulation_assist_model@);
    lemma_trim_idempotent(o.stt_groq_api_key@);
    // profile contents
    assert(n > 0);
    assert forall|i: int| 0 <= i < n implies shape(#[trigger] fs[i]) == shape(gs[i]) by {
        assert(shape(fs[i]) == normalized_shape(crate::normalize::source_shape(o, i), i, go));
        assert(shape(gs[i]) == normalized_shape(crate::normalize::source_shape(f, i), i, None));
        lemma_normalized_shape_stable(crate::normalize::source_shape(o, i), i, go);
    }
    // profile ids
    lemma_normalized_ids_trimmed(o, f);
    lemma_renormalized_ids_kept(f, g, n - 1);
    assert(profile_ids(fs) =~= profile_ids(gs));
    // the active profile
    let a = f.reformulation_active_profile_id@;
    lemma_resolved_active_is_an_id(
        o.reformulation_active_profile_id@,
        o.reformulation_active_profile,
        profile_ids(fs),
    );
    let j = choose|j: int| 0 <= j < profile_ids(fs).len() && profile_ids(fs)[j] == a;
    assert(fs[j].id@ == a);
    assert(trim(a) == a && trim(a).len() > 0);
    assert(profile_ids(gs).contains(a));
    assert(g.reformulation_active_profile_id@ == a);
    // the pipeline values follow the same active profile
    lemma_index_of_id(fs, a, 0);
    lemma_index_of_id(gs, a, 0);
    assert(active_index(f) == index_of_id(fs, a, 0));
    assert(active_index(g) == index_of_id(gs, a, 0));
    let k = index_of_id(fs, a, 0)->0;
    let k2 = index_of_id(gs, a, 0)->0;
    assert(gs[j].id@ == a);
    assert(k == k2) by {
        assert(gs[k].id@ == fs[k].id@);
        assert(fs[k2].id@ == gs[k2].id@);
    }
    assert(shape(fs[k]) == shape(gs[k]));
}


// ---------------------------------------------------------------------------
// The active profile is found by id
// ---------------------------------------------------------------------------

/// The active profile is found by its id, not by its position: when the profiles
/// of `b` are those of `a` in another order (their ids pairwise distinct) and the
/// active id is the same, both select the same profile, or neither selects one.
pub proof fn lemma_active_profile_survives_reordering(a: AppConfig, b: AppConfig)
    requires
        b.reformulation_profiles@.to_multiset() == a.reformulation_profiles@.to_multiset(),
        b.reformulation_active_profile_id@ == a.reformulation_active_profile_id@,
        forall|i: int, j: int|
            0 <= i < j < a.reformulation_profiles@.len() ==> (#[trigger] a.reformulation_profiles@[i]).id@
                != (#[trigger] a.reformulation_profiles@[j]).id@,
    ensures
        active_index(a) is None <==> active_index(b) is None,
        active_index(a) matches Some(i) ==> (active_index(b) matches Some(j)
            && b.reformulation_profiles@[j] == a.reformulation_profiles@[i]),
{
    let pa = a.reformulation_profiles@;
    let pb = b.reformulation_profiles@;
    let id = trim(a.reformulation_active_profile_id@);
    pa.to_multiset_ensures();
    pb.to_multiset_ensures();
    if id.len() > 0 {
        lemma_index_of_id(pa, id, 0);
        lemma_index_of_id(pb, id, 0);
        match index_of_id(pa, id, 0) {
            Some(i) => {
                // the profile at `i` is somewhere in `b`
                assert(pa.contains(pa[i]));
                assert(pa.to_multiset().count(pa[i]) > 0);
                assert(pb.to_multiset().count(pa[i]) > 0);
                assert(pb.contains(pa[i]));
                let j0 = choose|j: int| 0 <= j < pb.len() && pb[j] == pa[i];
                assert(pb[j0].id@ == id);
                let j = index_of_id(pb, id, 0)->0;
                // the first profile of `b` with that id is one of `a`'s, hence the one at `i`
                assert(pb.contains(pb[j]));
                assert(pb.to_multiset().count(pb[j]) > 0);
                assert(pa.to_multiset().count(pb[j]) > 0);
                assert(pa.contains(pb[j]));
                let i0 = choose|k: int| 0 <= k < pa.len() && pa[k] == pb[j];
                assert(pa[i0].id@ == id);
                if i0 < i {
                    assert(pa[i0].id@ != id);
                } else if i0 > i {
                    assert(pa[i].id@ != pa[i0].id@);
                }
            },
            None => {
                if index_of_id(pb, id, 0) is Some {
                    let j = index_of_id(pb, id, 0)->0;
                    assert(pb.contains(pb[j]));
                    assert(pb.to_multiset().count(pb[j]) > 0);
                    assert(pa.to_multiset().count(pb[j]) > 0);
                    assert(pa.contains(pb[j]));
                    let i0 = choose|k: int| 0 <= k < pa.len() && pa[k] == pb[j];
                    assert(pa[i0].id@ == id);
                }
            },
        }
    }
}


// ---------------------------------------------------------------------------
// Model tiers in the settings and the hardware suggestion
// ---------------------------------------------------------------------------

/// Normalising the tier setting never changes which tier it names: the tier
/// that `s` selects is the tier its normalised form selects, for every `s`.
/// In particular every known tier name, written in any case, with surrounding
/// whitespace or `_` for `-`, keeps its tier.
pub proof fn lemma_tier_setting_keeps_its_tier(s: Seq<char>)
    ensures
        crate::model::tier_from_text(norm_model_tier(s)) == crate::model::tier_from_text(s),
{
    lemma_fixed_values_are_slugs();
    lemma_slug_tier_text("tiny"@);
    lemma_slug_tier_text("base"@);
    lemma_slug_tier_text("small"@);
    lemma_slug_tier_text("medium"@);
    lemma_slug_tier_text("large-v3-turbo"@);
    reveal_strlit("tiny");
    reveal_strlit("base");
    reveal_strlit("small");
    reveal_strlit("medium");
    reveal_strlit("large-v3-turbo");
}

/// Each known tier name is kept as it is by normalisation.
pub proof fn lemma_tier_names_kept()
    ensures
        norm_model_tier("tiny"@) == "tiny"@,
        norm_model_tier("base"@) == "base"@,
        norm_model_tier("small"@) == "small"@,
        norm_model_tier("medium"@) == "medium"@,
        norm_model_tier("large-v3-turbo"@) == "large-v3-turbo"@,
        forall|t: crate::model::ModelTier| norm_model_tier(#[trigger] t.slug()) == t.slug(),
{
    lemma_fixed_values_are_slugs();
    lemma_slug_tier_text("tiny"@);
    lemma_slug_tier_text("base"@);
    lemma_slug_tier_text("small"@);
    lemma_slug_tier_text("medium"@);
    lemma_slug_tier_text("large-v3-turbo"@);
}

/// The model suggested for a machine: `tiny` under 8 GiB of RAM; from 8 GiB,
/// without Whisper on the GPU, `base` under 16 GiB and `small` from 16 GiB;
/// with Whisper on the GPU, `medium` under 16 GiB and `large-v3-turbo` from 16 GiB.
pub proof fn lemma_suggestion_thresholds(ram_gb: int, whisper_gpu: bool)
    ensures
        ram_gb < 8 ==> crate::hardware::suggested_tier_for(ram_gb, whisper_gpu) == "tiny"@,
        8 <= ram_gb < 16 && !whisper_gpu ==> crate::hardware::suggested_tier_for(ram_gb, whisper_gpu)
            == "base"@,
        ram_gb >= 16 && !whisper_gpu ==> crate::hardware::suggested_tier_for(ram_gb, whisper_gpu)
            == "small"@,
        8 <= ram_gb < 16 && whisper_gpu ==> crate::hardware::suggested_tier_for(ram_gb, whisper_gpu)
            == "medium"@,
        ram_gb >= 16 && whisper_gpu ==> crate::hardware::suggested_tier_for(ram_gb, whisper_gpu)
            == "large-v3-turbo"@,
{
}


// ---------------------------------------------------------------------------
// LLM requests and replies
// ---------------------------------------------------------------------------

proof fn lemma_first_colon(t: Seq<char>, p: int, from: int)
    requires
        0 <= from <= p < t.len(),
        t[p] == ':',
        forall|i: int| from <= i < p ==> t[i] != ':',
    ensures
        crate::reformulate::index_of_char(t, ':', from) == Some(p),
    decreases p - from,
{
    if from < p {
        lemma_first_colon(t, p, from + 1);
    }
}

/// A reply that opens (trimmed, ASCII case aside) with "voici", "here is",
/// "here's", "sure,", "sure ", "below is" or "the reformulation", and whose first
/// colon is at `p`, is cut after that colon: what is kept is the rest, trimmed
/// and without leading quotes, when that is not blank and more than 8 bytes
/// shorter than the trimmed reply.
pub proof fn lemma_preamble_is_cut(s: Seq<char>, p: int)
    requires
        ({
            let low = lower(trim(s));
            ||| crate::text::starts_with(low, "voici"@)
            ||| crate::text::starts_with(low, "here is"@)
            ||| crate::text::starts_with(low, "here's"@)
            ||| crate::text::starts_with(low, "sure,"@)
            ||| crate::text::starts_with(low, "sure "@)
            ||| crate::text::starts_with(low, "below is"@)
            ||| crate::text::starts_with(low, "the reformulation"@)
        }),
        0 <= p < trim(s).len(),
        trim(s)[p] == ':',
        forall|i: int| 0 <= i < p ==> trim(s)[i] != ':',
        crate::reformulate::strip_quotes(trim(trim(s).skip(p + 1))).len() > 0,
        byte_len(crate::reformulate::strip_quotes(trim(trim(s).skip(p + 1)))) + 8 < byte_len(
            trim(s),
        ),
    ensures
        crate::reformulate::strip_preamble(s) == crate::reformulate::strip_quotes(
            trim(trim(s).skip(p + 1)),
        ),
{
    lemma_first_colon(trim(s), p, 0);
}

/// A reply that does not open with one of those seven words comes back trimmed
/// and otherwise untouched.
pub proof fn lemma_plain_reply_is_kept(s: Seq<char>)
    requires
        ({
            let low = lower(trim(s));
            &&& !crate::text::starts_with(low, "voici"@)
            &&& !crate::text::starts_with(low, "here is"@)
            &&& !crate::text::starts_with(low, "here's"@)
            &&& !crate::text::starts_with(low, "sure,"@)
            &&& !crate::text::starts_with(low, "sure "@)
            &&& !crate::text::starts_with(low, "below is"@)
            &&& !crate::text::starts_with(low, "the reformulation"@)
        }),
    ensures
        crate::reformulate::strip_preamble(s) == trim(s),
{
}

/// The voice assistant uses its own model whenever one is set (not blank), and
/// the active profile's model otherwise.
pub proof fn lemma_assist_model_choice(p: crate::reformulate::ReformulationParams)
    ensures
        trim(p.assist_model_override@).len() > 0 ==> crate::reformulate::assist_model(p) == trim(
            p.assist_model_override@,
        ),
        trim(p.assist_model_override@).len() == 0 ==> crate::reformulate::assist_model(p) == trim(
            p.profiles@[crate::reformulate::active_slot(p)].model@,
        ),
{
}

/// The prompt refiner uses the model hint whenever one is given (not blank),
/// whatever the provider; without a hint, Groq's `llama-3.1-8b-instant` or
/// OpenRouter's `meta-llama/llama-3.1-8b-instruct`.
pub proof fn lemma_refiner_model_choice(provider: Seq<char>, model_hint: Seq<char>)
    ensures
        trim(model_hint).len() > 0 ==> crate::reformulate::refiner_model(provider, model_hint)
            == trim(model_hint),
        trim(model_hint).len() == 0 && provider == "groq"@ ==> crate::reformulate::refiner_model(
            provider,
            model_hint,
        ) == "llama-3.1-8b-instant"@,
        trim(model_hint).len() == 0 && provider != "groq"@ ==> crate::reformulate::refiner_model(
            provider,
            model_hint,
        ) == "meta-llama/llama-3.1-8b-instruct"@,
{
}

} // verus!
