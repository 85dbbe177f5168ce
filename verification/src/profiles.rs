//! Reformulation profiles: usable ids and the choice of the active profile.

use vstd::prelude::*;
use crate::text::{from_chars, is_blank, is_ws, lemma_trim_nonempty, to_chars, trim, trimmed};
use crate::config::{
    contains_string, lemma_uuid_text_trim, new_profile_id, views, AppConfig, ReformulationProfile,
};

verus! {

// ---------------------------------------------------------------------------
// Profile ids
// ---------------------------------------------------------------------------

/// The ids of a list of profiles.
pub open spec fn profile_ids(ps: Seq<ReformulationProfile>) -> Seq<Seq<char>> {
    ps.map_values(|p: ReformulationProfile| p.id@)
}

/// Everything of a profile but its id, as plain values.
pub open spec fn shape(p: ReformulationProfile) -> (
    Seq<char>,
    Seq<char>,
    Seq<char>,
    Seq<char>,
    bool,
    Seq<char>,
    bool,
) {
    (
        p.profile_name@,
        p.model@,
        p.prompt@,
        p.decode_profile@,
        p.translate_enabled,
        p.translate_target@,
        p.reformulation_enabled,
    )
}

/// Ids are usable: none blank, no two equal.
pub open spec fn ids_valid(ids: Seq<Seq<char>>) -> bool {
    &&& forall|i: int| 0 <= i < ids.len() ==> trim(#[trigger] ids[i]).len() > 0
    &&& forall|i: int, j: int| 0 <= i < j < ids.len() ==> #[trigger] ids[i] != #[trigger] ids[j]
}

/// `new` is `old` with usable ids: an id is kept when it is not blank and no
/// earlier profile ended up with it; any other id is replaced by a fresh one.
pub open spec fn ids_assigned(old: Seq<ReformulationProfile>, new: Seq<ReformulationProfile>) -> bool {
    &&& new.len() == old.len()
    &&& forall|i: int| 0 <= i < old.len() ==> shape(#[trigger] new[i]) == shape(old[i])
    &&& ids_valid(profile_ids(new))
    &&& forall|i: int|
        0 <= i < old.len() && trim(old[i].id@).len() > 0 && !profile_ids(new).take(i).contains(
            old[i].id@,
        ) ==> (#[trigger] new[i]).id@ == old[i].id@
    &&& forall|i: int|
        0 <= i < old.len() ==> (#[trigger] new[i]).id@ == old[i].id@ || trim(new[i].id@)
            == new[i].id@
}

/// Calls `new_profile_id` a few times until an unused id comes out; should
/// every draw collide, a run of `-` longer than every used id is unused too.
fn fresh_profile_id(used: &Vec<String>) -> (r: String)
    ensures
        !views(used@).contains(r@),
        trim(r@).len() > 0,
        trim(r@) == r@,
{
    let mut attempt: usize = 0;
    while attempt < 8
        decreases 8 - attempt,
    {
        let id = new_profile_id();
        if !contains_string(used, &id) {
            proof {
                lemma_uuid_text_trim(id@);
            }
            return id;
        }
        attempt = attempt + 1;
    }
    let mut dashes: Vec<char> = Vec::new();
    dashes.push('-');
    let n = used.len();
    let mut i: usize = 0;
    while i < n
        invariant
            n == used@.len(),
            i <= n,
            dashes@.len() > 0,
            forall|k: int| 0 <= k < dashes@.len() ==> dashes@[k] == '-',
            forall|j: int| 0 <= j < i ==> used@[j]@.len() < dashes@.len(),
        decreases n - i,
    {
        let cand = to_chars(used[i].as_str());
        while dashes.len() <= cand.len()
            invariant
                dashes@.len() > 0,
                forall|k: int| 0 <= k < dashes@.len() ==> dashes@[k] == '-',
                forall|j: int| 0 <= j < i ==> used@[j]@.len() < dashes@.len(),
            decreases cand@.len() + 1 - dashes@.len(),
        {
            dashes.push('-');
        }
        i = i + 1;
    }
    let r = from_chars(dashes.as_slice());
    proof {
        assert(!is_ws(r@[0]));
        lemma_trim_nonempty(r@, 0);
        crate::text::lemma_trim_no_ws(r@);
        if views(used@).contains(r@) {
            let j = choose|j: int| 0 <= j < views(used@).len() && views(used@)[j] == r@;
            assert(used@[j]@ == r@);
        }
    }
    r
}

/// Gives every profile a usable id (see `ids_assigned`).
pub fn assign_reformulation_profile_ids(profiles: &mut Vec<ReformulationProfile>)
    ensures
        ids_assigned(old(profiles)@, final(profiles)@),
{
    let n = profiles.len();
    let mut used: Vec<String> = Vec::new();
    let mut out: Vec<ReformulationProfile> = Vec::new();
    let mut i: usize = 0;
    while i < n
        invariant
            n == profiles@.len(),
            i <= n,
            out@.len() == i,
            views(used@) == profile_ids(out@),
            forall|k: int| 0 <= k < i ==> shape(#[trigger] out@[k]) == shape(profiles@[k]),
            ids_valid(profile_ids(out@)),
            forall|k: int|
                0 <= k < i && trim(profiles@[k].id@).len() > 0 && !profile_ids(out@).take(
                    k,
                ).contains(profiles@[k].id@) ==> (#[trigger] out@[k]).id@ == profiles@[k].id@,
            forall|k: int|
                0 <= k < i ==> (#[trigger] out@[k]).id@ == profiles@[k].id@ || trim(out@[k].id@)
                    == out@[k].id@,
        decreases n - i,
    {
        let mut p = profiles[i].duplicate();
        if is_blank(p.id.as_str()) || contains_string(&used, &p.id) {
            p.id = fresh_profile_id(&used);
        }
        let ghost before = out@;
        used.push(p.id.clone());
        out.push(p);
        proof {
            assert(profile_ids(out@) =~= profile_ids(before).push(p.id@));
            assert(views(used@) =~= profile_ids(out@));
            assert(profile_ids(out@).take(i as int) =~= profile_ids(before));
            assert forall|k: int| 0 <= k < i + 1 implies shape(#[trigger] out@[k]) == shape(
                profiles@[k],
            ) by {
                if k < i {
                    assert(out@[k] == before[k]);
                }
            }
            assert forall|a: int, b: int|
                0 <= a < b < profile_ids(out@).len() implies #[trigger] profile_ids(out@)[a]
                != #[trigger] profile_ids(out@)[b] by {
                if b == i {
                    assert(profile_ids(before)[a] == profile_ids(out@)[a]);
                } else {
                    assert(profile_ids(before)[a] == profile_ids(out@)[a]);
                    assert(profile_ids(before)[b] == profile_ids(out@)[b]);
                }
            }
            assert forall|k: int| 0 <= k < profile_ids(out@).len() implies trim(
                #[trigger] profile_ids(out@)[k],
            ).len() > 0 by {
                if k < i {
                    assert(profile_ids(before)[k] == profile_ids(out@)[k]);
                }
            }
            assert forall|k: int|
                0 <= k < i + 1 && trim(profiles@[k].id@).len() > 0 && !profile_ids(out@).take(
                    k,
                ).contains(profiles@[k].id@) implies (#[trigger] out@[k]).id@ == profiles@[k].id@ by {
                if k < i {
                    assert(profile_ids(out@).take(k) =~= profile_ids(before).take(k));
                    assert(out@[k] == before[k]);
                }
            }
            assert forall|k: int| 0 <= k < i + 1 implies (#[trigger] out@[k]).id@
                == profiles@[k].id@ || trim(out@[k].id@) == out@[k].id@ by {
                if k < i {
                    assert(out@[k] == before[k]);
                }
            }
        }
        i = i + 1;
    }
    *profiles = out;
}

/// Profiles whose ids are already usable keep them all.
pub proof fn lemma_assign_keeps_valid_ids(old: Seq<ReformulationProfile>, new: Seq<ReformulationProfile>)
    requires
        ids_valid(profile_ids(old)),
        ids_assigned(old, new),
    ensures
        profile_ids(new) == profile_ids(old),
{
    assert forall|i: int| 0 <= i < old.len() implies (#[trigger] new[i]).id@ == old[i].id@ by {
        lemma_assign_keeps_prefix(old, new, i);
    }
    assert(profile_ids(new) =~= profile_ids(old));
}

proof fn lemma_assign_keeps_prefix(old: Seq<ReformulationProfile>, new: Seq<ReformulationProfile>, i: int)
    requires
        ids_valid(profile_ids(old)),
        ids_assigned(old, new),
        0 <= i < old.len(),
    ensures
        forall|k: int| 0 <= k <= i ==> (#[trigger] new[k]).id@ == old[k].id@,
    decreases i,
{
    if i > 0 {
        lemma_assign_keeps_prefix(old, new, i - 1);
    }
    assert(trim(profile_ids(old)[i]).len() > 0);
    if profile_ids(new).take(i).contains(old[i].id@) {
        let j = choose|j: int| 0 <= j < profile_ids(new).take(i).len() && profile_ids(new).take(i)[j] == old[i].id@;
        assert(new[j].id@ == old[j].id@);
        assert(profile_ids(old)[j] == profile_ids(old)[i]);
    }
}

// ---------------------------------------------------------------------------
// The active profile
// ---------------------------------------------------------------------------

/// Index of the first profile, from `from` on, whose id is `id`.
pub open spec fn index_of_id(ps: Seq<ReformulationProfile>, id: Seq<char>, from: int) -> Option<int>
    decreases ps.len() - from,
{
    if from < 0 || from >= ps.len() {
        None
    } else if ps[from].id@ == id {
        Some(from)
    } else {
        index_of_id(ps, id, from + 1)
    }
}

pub proof fn lemma_index_of_id(ps: Seq<ReformulationProfile>, id: Seq<char>, from: int)
    requires
        0 <= from,
    ensures
        index_of_id(ps, id, from) matches Some(k) ==> from <= k < ps.len() && ps[k].id@ == id
            && forall|j: int| from <= j < k ==> (#[trigger] ps[j]).id@ != id,
        index_of_id(ps, id, from) is None ==> forall|j: int|
            from <= j < ps.len() ==> (#[trigger] ps[j]).id@ != id,
    decreases ps.len() - from,
{
    if from < ps.len() && ps[from].id@ != id {
        lemma_index_of_id(ps, id, from + 1);
    }
}

/// The active profile: the first whose id is the trimmed active id.
pub open spec fn active_index(c: AppConfig) -> Option<int> {
    let id = trim(c.reformulation_active_profile_id@);
    if id.len() == 0 {
        None
    } else {
        index_of_id(c.reformulation_profiles@, id, 0)
    }
}

pub fn active_profile_index(cfg: &AppConfig) -> (r: Option<usize>)
    ensures
        r matches Some(k) ==> active_index(*cfg) == Some(k as int),
        r is None ==> active_index(*cfg) is None,
        r matches Some(k) ==> k < cfg.reformulation_profiles@.len(),
{
    let id = trimmed(cfg.reformulation_active_profile_id.as_str());
    let idv = to_chars(id.as_str());
    if idv.len() == 0 {
        return None;
    }
    let n = cfg.reformulation_profiles.len();
    let mut i: usize = 0;
    while i < n
        invariant
            n == cfg.reformulation_profiles@.len(),
            i <= n,
            id@ == trim(cfg.reformulation_active_profile_id@),
            id@.len() > 0,
            index_of_id(cfg.reformulation_profiles@, id@, 0) == index_of_id(
                cfg.reformulation_profiles@,
                id@,
                i as int,
            ),
        decreases n - i,
    {
        if cfg.reformulation_profiles[i].id == id {
            return Some(i);
        }
        i = i + 1;
    }
    None
}

/// The active id after resolution, given the profiles' (usable) ids.
pub open spec fn resolve_active_id(active: Seq<char>, legacy: Option<u8>, ids: Seq<Seq<char>>) -> Seq<
    char,
> {
    let a = trim(active);
    if a.len() == 0 {
        match legacy {
            Some(k) => if 1 <= k && k <= ids.len() {
                ids[k - 1]
            } else {
                ids[0]
            },
            None => ids[0],
        }
    } else if ids.contains(a) {
        a
    } else {
        ids[0]
    }
}

/// The fields other than the profiles, the active id and the legacy index are equal.
pub open spec fn same_scalars(a: AppConfig, b: AppConfig) -> bool {
    &&& b.language == a.language
    &&& b.insert_mode == a.insert_mode
    &&& b.model_tier == a.model_tier
    &&& b.decode_profile == a.decode_profile
    &&& b.ptt_shortcut == a.ptt_shortcut
    &&& b.shortcut_transcribe_file == a.shortcut_transcribe_file
    &&& b.shortcut_ai_assist == a.shortcut_ai_assist
    &&& b.shortcut_cycle_profile == a.shortcut_cycle_profile
    &&& b.status_sounds_enabled == a.status_sounds_enabled
    &&& b.translate_enabled == a.translate_enabled
    &&& b.translate_target == a.translate_target
    &&& b.reformulation_enabled == a.reformulation_enabled
    &&& b.reformulation_api_key == a.reformulation_api_key
    &&& b.reformulation_provider == a.reformulation_provider
    &&& b.reformulation_assist_model == a.reformulation_assist_model
    &&& b.stt_mode == a.stt_mode
    &&& b.stt_cloud_model == a.stt_cloud_model
    &&& b.stt_groq_api_key == a.stt_groq_api_key
    &&& b.pipeline_profiles_migrated == a.pipeline_profiles_migrated
}

/// Fills in missing ids and resolves the active id (legacy index, else the first
/// profile), then drops the legacy index. Without profiles nothing changes.
pub fn resolve_reformulation_active_profile(cfg: &mut AppConfig)
    ensures
        old(cfg).reformulation_profiles@.len() == 0 ==> *final(cfg) == *old(cfg),
        old(cfg).reformulation_profiles@.len() > 0 ==> {
            &&& ids_assigned(old(cfg).reformulation_profiles@, final(cfg).reformulation_profiles@)
            &&& final(cfg).reformulation_active_profile_id@ == resolve_active_id(
                old(cfg).reformulation_active_profile_id@,
                old(cfg).reformulation_active_profile,
                profile_ids(final(cfg).reformulation_profiles@),
            )
            &&& final(cfg).reformulation_active_profile is None
            &&& same_scalars(*old(cfg), *final(cfg))
        },
{
    let n = cfg.reformulation_profiles.len();
    if n == 0 {
        return;
    }
    assign_reformulation_profile_ids(&mut cfg.reformulation_profiles);
    let ghost ids = profile_ids(cfg.reformulation_profiles@);
    let a = trimmed(cfg.reformulation_active_profile_id.as_str());
    let av = to_chars(a.as_str());
    let mut active_id: String;
    if av.len() == 0 {
        active_id = String::new();
        match cfg.reformulation_active_profile {
            Some(k) => {
                let k: usize = k as usize;
                if k >= 1 && k <= n {
                    active_id = cfg.reformulation_profiles[k - 1].id.clone();
                    assert(ids[k - 1] == active_id@);
                }
            },
            None => {},
        }
        let cur = to_chars(active_id.as_str());
        if cur.len() == 0 {
            active_id = cfg.reformulation_profiles[0].id.clone();
            assert(ids[0] == active_id@);
        } else {
            proof {
                // a usable id is never empty
                if active_id@.len() == 0 {
                    assert(trim(active_id@) =~= active_id@);
                }
            }
        }
    } else {
        let mut found = false;
        let mut i: usize = 0;
        while i < n
            invariant
                n == cfg.reformulation_profiles@.len(),
                i <= n,
                ids == profile_ids(cfg.reformulation_profiles@),
                found == (exists|j: int| 0 <= j < i && ids[j] == a@),
            decreases n - i,
        {
            assert(ids[i as int] == cfg.reformulation_profiles@[i as int].id@);
            if cfg.reformulation_profiles[i].id == a {
                found = true;
            }
            i = i + 1;
        }
        if found {
            active_id = a;
        } else {
            active_id = cfg.reformulation_profiles[0].id.clone();
            assert(ids[0] == active_id@);
        }
    }
    cfg.reformulation_active_profile_id = active_id;
    cfg.reformulation_active_profile = None;
}

} // verus!
