//! Application settings (`settings.json`): defaults, normalisation of what a
//! user or an older version wrote, the reformulation profiles and the choice
//! of the active one.

use vstd::prelude::*;
use crate::text::{
    byte_len, byte_len_exceeds, chars_eq_str, decimal, decimal_string, from_chars, is_blank, is_ws,
    lemma_byte_len_concat, lemma_byte_len_push, lemma_decimal_no_ws, lemma_trim_no_ws,
    lemma_trim_nonempty, lower, lower_vec, owned, replace_char_vec, to_chars, trim, trim_vec,
    trimmed,
};
use crate::reformulate::{ReformulationParams, ReformulationProfileSnap};
use crate::model::{ModelTier, normalize_tier_text, tier_from_text};

verus! {

// ---------------------------------------------------------------------------
// Types
// ---------------------------------------------------------------------------

/// How a transcript is delivered.
#[derive(Debug, Clone, Copy, PartialEq, Eq, Structural)]
pub enum InsertMode {
    /// Copied to the clipboard, then pasted into the focused window.
    Paste,
    /// Only copied to the clipboard.
    Clipboard,
}

/// One reformulation profile: an LLM prompt plus the dictation pipeline
/// settings that go with it.
#[derive(Debug)]
pub struct ReformulationProfile {
    /// Stable identifier (a UUID); the order of the list may change.
    pub id: String,
    pub profile_name: String,
    pub model: String,
    pub prompt: String,
    /// Whisper decoding preset (fast / balanced / accurate).
    pub decode_profile: String,
    pub translate_enabled: bool,
    pub translate_target: String,
    /// LLM reformulation enabled for this profile (global API key).
    pub reformulation_enabled: bool,
}

/// The whole settings file.
#[derive(Debug)]
pub struct AppConfig {
    pub language: String,
    pub insert_mode: InsertMode,
    pub model_tier: String,
    pub decode_profile: String,
    pub ptt_shortcut: String,
    pub shortcut_transcribe_file: String,
    pub shortcut_ai_assist: String,
    pub shortcut_cycle_profile: String,
    pub status_sounds_enabled: bool,
    /// Translate the transcript after Whisper (online).
    pub translate_enabled: bool,
    /// ISO code of the target language.
    pub translate_target: String,
    /// LLM reformulation (Groq / OpenRouter), bring your own key.
    pub reformulation_enabled: bool,
    pub reformulation_api_key: String,
    pub reformulation_provider: String,
    /// Active profile by id (the source of truth).
    pub reformulation_active_profile_id: String,
    /// Older format: 1-based index, migrated to the id and then dropped.
    pub reformulation_active_profile: Option<u8>,
    pub reformulation_profiles: Vec<ReformulationProfile>,
    /// Model for the voice assistant only; empty means the active profile's model.
    pub reformulation_assist_model: String,
    /// Speech-to-text engine: local Whisper or Groq's cloud.
    pub stt_mode: String,
    /// Groq speech-to-text model (with `stt_mode == "cloud-groq"`).
    pub stt_cloud_model: String,
    /// Groq key for the cloud speech-to-text.
    pub stt_groq_api_key: String,
    /// One-shot migration: per-profile pipeline settings copied from the globals.
    pub pipeline_profiles_migrated: bool,
}

impl ReformulationProfile {
    /// A field-by-field copy.
    pub fn duplicate(&self) -> (r: Self)
        ensures
            r == *self,
    {
        ReformulationProfile {
            id: self.id.clone(),
            profile_name: self.profile_name.clone(),
            model: self.model.clone(),
            prompt: self.prompt.clone(),
            decode_profile: self.decode_profile.clone(),
            translate_enabled: self.translate_enabled,
            translate_target: self.translate_target.clone(),
            reformulation_enabled: self.reformulation_enabled,
        }
    }
}

// ---------------------------------------------------------------------------
// Defaults
// ---------------------------------------------------------------------------

pub fn default_translate_target() -> (r: String)
    ensures
        r@ == "en"@,
{
    owned("en")
}

pub fn default_decode_profile() -> (r: String)
    ensures
        r@ == "balanced"@,
{
    owned("balanced")
}

pub fn default_ptt_shortcut() -> (r: String)
    ensures
        r@ == "Ctrl+Shift+Space"@,
{
    owned("Ctrl+Shift+Space")
}

pub fn default_shortcut_transcribe_file() -> (r: String)
    ensures
        r@ == "Ctrl+Shift+T"@,
{
    owned("Ctrl+Shift+T")
}

pub fn default_shortcut_ai_assist() -> (r: String)
    ensures
        r@ == "Ctrl+Alt+Space"@,
{
    owned("Ctrl+Alt+Space")
}

pub fn default_shortcut_cycle_profile() -> (r: String)
    ensures
        r@ == "Ctrl+Alt+Shift+P"@,
{
    owned("Ctrl+Alt+Shift+P")
}

pub fn default_reformulation_provider() -> (r: String)
    ensures
        r@ == "groq"@,
{
    owned("groq")
}

pub fn default_stt_mode() -> (r: String)
    ensures
        r@ == "local"@,
{
    owned("local")
}

pub fn default_stt_cloud_model() -> (r: String)
    ensures
        r@ == "whisper-large-v3-turbo"@,
{
    owned("whisper-large-v3-turbo")
}

pub fn default_status_sounds_enabled() -> (r: bool)
    ensures
        r,
{
    true
}

/// Text of a version 4 UUID in its hyphenated lower-case form.
pub open spec fn is_uuid_text(s: Seq<char>) -> bool {
    &&& s.len() == 36
    &&& forall|i: int|
        0 <= i < s.len() ==> (('0' <= #[trigger] s[i] && s[i] <= '9') || ('a' <= s[i] && s[i]
            <= 'f') || s[i] == '-')
}

/// A UUID text has no whitespace, so it is its own trim and not blank.
pub proof fn lemma_uuid_text_trim(s: Seq<char>)
    requires
        is_uuid_text(s),
    ensures
        trim(s) == s,
        trim(s).len() > 0,
{
    lemma_trim_no_ws(s);
}

/// Calls `uuid::Uuid::new_v4` and renders it with its `Display` impl, which
/// writes the 36-character lower-case hyphenated form. The value itself is random.
#[verifier::external_body]
pub(crate) fn new_profile_id() -> (r: String)
    ensures
        is_uuid_text(r@),
{
    uuid::Uuid::new_v4().to_string()
}

pub open spec fn default_profile_prompt(i: int) -> Seq<char> {
    if i == 0 {
        "Rewrite the dictated text for clarity. Preserve meaning and language; do not add facts or code. Output only the rewritten text."@
    } else if i == 1 {
        "Rewrite for a coding-assistant prompt: concise, actionable, preserve technical terms and intent. Output only the rewritten text."@
    } else {
        "Rewrite briefly for professional messaging. Preserve meaning. Output only the rewritten text."@
    }
}

pub open spec fn default_profile_name(i: int) -> Seq<char> {
    if i == 0 {
        "Profile 1"@
    } else if i == 1 {
        "Profile 2"@
    } else {
        "Profile 3"@
    }
}

/// The three built-in profiles, up to their (random) ids.
pub open spec fn is_default_profile_list(ps: Seq<ReformulationProfile>) -> bool {
    &&& ps.len() == 3
    &&& forall|i: int|
        0 <= i < 3 ==> {
            &&& is_uuid_text(#[trigger] ps[i].id@)
            &&& ps[i].profile_name@ == default_profile_name(i)
            &&& ps[i].model@ == "llama-3.1-8b-instant"@
            &&& ps[i].prompt@ == default_profile_prompt(i)
            &&& ps[i].decode_profile@ == "balanced"@
            &&& !ps[i].translate_enabled
            &&& ps[i].translate_target@ == "en"@
            &&& !ps[i].reformulation_enabled
        }
}

fn default_profile(name: &str, prompt: &str) -> (p: ReformulationProfile)
    ensures
        is_uuid_text(p.id@),
        p.profile_name@ == name@,
        p.model@ == "llama-3.1-8b-instant"@,
        p.prompt@ == prompt@,
        p.decode_profile@ == "balanced"@,
        !p.translate_enabled,
        p.translate_target@ == "en"@,
        !p.reformulation_enabled,
{
    ReformulationProfile {
        id: new_profile_id(),
        profile_name: owned(name),
        model: owned("llama-3.1-8b-instant"),
        prompt: owned(prompt),
        decode_profile: default_decode_profile(),
        translate_enabled: false,
        translate_target: default_translate_target(),
        reformulation_enabled: false,
    }
}

pub fn default_reformulation_profiles() -> (r: Vec<ReformulationProfile>)
    ensures
        is_default_profile_list(r@),
{
    let mut v: Vec<ReformulationProfile> = Vec::new();
    v.push(
        default_profile(
            "Profile 1",
            "Rewrite the dictated text for clarity. Preserve meaning and language; do not add facts or code. Output only the rewritten text.",
        ),
    );
    v.push(
        default_profile(
            "Profile 2",
            "Rewrite for a coding-assistant prompt: concise, actionable, preserve technical terms and intent. Output only the rewritten text.",
        ),
    );
    v.push(
        default_profile(
            "Profile 3",
            "Rewrite briefly for professional messaging. Preserve meaning. Output only the rewritten text.",
        ),
    );
    v
}

/// The settings of a first start, up to the random profile ids.
pub open spec fn is_default_config(c: AppConfig) -> bool {
    &&& c.language@ == "fr"@
    &&& c.insert_mode == InsertMode::Paste
    &&& c.model_tier@ == "tiny"@
    &&& c.decode_profile@ == "balanced"@
    &&& c.ptt_shortcut@ == "Ctrl+Shift+Space"@
    &&& c.shortcut_transcribe_file@ == "Ctrl+Shift+T"@
    &&& c.shortcut_ai_assist@ == "Ctrl+Alt+Space"@
    &&& c.shortcut_cycle_profile@ == "Ctrl+Alt+Shift+P"@
    &&& c.status_sounds_enabled
    &&& !c.translate_enabled
    &&& c.translate_target@ == "en"@
    &&& !c.reformulation_enabled
    &&& c.reformulation_api_key@ == Seq::<char>::empty()
    &&& c.reformulation_provider@ == "groq"@
    &&& is_default_profile_list(c.reformulation_profiles@)
    &&& c.reformulation_active_profile_id@ == c.reformulation_profiles@[0].id@
    &&& c.reformulation_active_profile is None
    &&& c.reformulation_assist_model@ == Seq::<char>::empty()
    &&& c.stt_mode@ == "local"@
    &&& c.stt_cloud_model@ == "whisper-large-v3-turbo"@
    &&& c.stt_groq_api_key@ == Seq::<char>::empty()
    &&& !c.pipeline_profiles_migrated
}

impl Default for AppConfig {
    fn default() -> (r: Self)
        ensures
            is_default_config(r),
    {
        let reformulation_profiles = default_reformulation_profiles();
        let reformulation_active_profile_id = reformulation_profiles[0].id.clone();
        AppConfig {
            language: owned("fr"),
            insert_mode: InsertMode::Paste,
            model_tier: owned("tiny"),
            decode_profile: default_decode_profile(),
            ptt_shortcut: default_ptt_shortcut(),
            shortcut_transcribe_file: default_shortcut_transcribe_file(),
            shortcut_ai_assist: default_shortcut_ai_assist(),
            shortcut_cycle_profile: default_shortcut_cycle_profile(),
            status_sounds_enabled: default_status_sounds_enabled(),
            translate_enabled: false,
            translate_target: default_translate_target(),
            reformulation_enabled: false,
            reformulation_api_key: String::new(),
            reformulation_provider: default_reformulation_provider(),
            reformulation_active_profile_id,
            reformulation_active_profile: None,
            reformulation_profiles,
            reformulation_assist_model: String::new(),
            stt_mode: default_stt_mode(),
            stt_cloud_model: default_stt_cloud_model(),
            stt_groq_api_key: String::new(),
            pipeline_profiles_migrated: false,
        }
    }
}

// ---------------------------------------------------------------------------
// Normalisation of single fields
// ---------------------------------------------------------------------------

/// Tier setting: the parser's normal form when it is a known slug, else `tiny`.
pub open spec fn norm_model_tier(s: Seq<char>) -> Seq<char> {
    let n = normalize_tier_text(s);
    if n == "tiny"@ || n == "base"@ || n == "small"@ || n == "medium"@ || n == "large-v3-turbo"@ {
        n
    } else {
        "tiny"@
    }
}

/// Target language: trimmed and lower-cased, `en` when blank.
pub open spec fn norm_target(s: Seq<char>) -> Seq<char> {
    if lower(trim(s)).len() == 0 {
        "en"@
    } else {
        lower(trim(s))
    }
}

/// Decoding preset: one of fast / balanced / accurate, else balanced.
pub open spec fn norm_decode(s: Seq<char>) -> Seq<char> {
    let n = lower(trim(s));
    if n == "fast"@ || n == "balanced"@ || n == "accurate"@ {
        n
    } else {
        "balanced"@
    }
}

/// Reformulation provider: groq or openrouter, else groq.
pub open spec fn norm_provider(s: Seq<char>) -> Seq<char> {
    let n = lower(trim(s));
    if n == "groq"@ || n == "openrouter"@ {
        n
    } else {
        "groq"@
    }
}

/// Speech-to-text engine: local or cloud-groq, else local.
pub open spec fn norm_stt_mode(s: Seq<char>) -> Seq<char> {
    let n = lower(trim(s));
    if n == "local"@ || n == "cloud-groq"@ {
        n
    } else {
        "local"@
    }
}

/// Groq speech-to-text model: one of the two Whisper large models, else the turbo one.
pub open spec fn norm_stt_cloud_model(s: Seq<char>) -> Seq<char> {
    let n = lower(trim(s));
    if n == "whisper-large-v3"@ || n == "whisper-large-v3-turbo"@ {
        n
    } else {
        "whisper-large-v3-turbo"@
    }
}

pub fn normalize_model_tier_text(s: &str) -> (r: String)
    ensures
        r@ == norm_model_tier(s@),
        crate::model::tier_from_text(r@) == crate::model::tier_from_text(s@),
{
    proof {
        crate::laws::lemma_tier_setting_keeps_its_tier(s@);
    }
    let v = to_chars(s);
    let t = trim_vec(&v);
    let l = lower_vec(&t);
    let n = replace_char_vec(&l, '_', '-');
    if chars_eq_str(&n, "tiny") || chars_eq_str(&n, "base") || chars_eq_str(&n, "small")
        || chars_eq_str(&n, "medium") || chars_eq_str(&n, "large-v3-turbo") {
        from_chars(n.as_slice())
    } else {
        owned("tiny")
    }
}

fn lower_trim_vec(s: &str) -> (r: Vec<char>)
    ensures
        r@ == lower(trim(s@)),
{
    let v = to_chars(s);
    let t = trim_vec(&v);
    lower_vec(&t)
}

pub fn normalize_target_text(s: &str) -> (r: String)
    ensures
        r@ == norm_target(s@),
{
    let n = lower_trim_vec(s);
    if n.len() == 0 {
        default_translate_target()
    } else {
        from_chars(n.as_slice())
    }
}

pub fn normalize_decode_text(s: &str) -> (r: String)
    ensures
        r@ == norm_decode(s@),
{
    let n = lower_trim_vec(s);
    if chars_eq_str(&n, "fast") || chars_eq_str(&n, "balanced") || chars_eq_str(&n, "accurate") {
        from_chars(n.as_slice())
    } else {
        default_decode_profile()
    }
}

pub fn normalize_provider_text(s: &str) -> (r: String)
    ensures
        r@ == norm_provider(s@),
{
    let n = lower_trim_vec(s);
    if chars_eq_str(&n, "groq") || chars_eq_str(&n, "openrouter") {
        from_chars(n.as_slice())
    } else {
        default_reformulation_provider()
    }
}

pub fn normalize_stt_mode_text(s: &str) -> (r: String)
    ensures
        r@ == norm_stt_mode(s@),
{
    let n = lower_trim_vec(s);
    if chars_eq_str(&n, "local") || chars_eq_str(&n, "cloud-groq") {
        from_chars(n.as_slice())
    } else {
        default_stt_mode()
    }
}

pub fn normalize_stt_cloud_model_text(s: &str) -> (r: String)
    ensures
        r@ == norm_stt_cloud_model(s@),
{
    let n = lower_trim_vec(s);
    if chars_eq_str(&n, "whisper-large-v3") || chars_eq_str(&n, "whisper-large-v3-turbo") {
        from_chars(n.as_slice())
    } else {
        default_stt_cloud_model()
    }
}

// ---------------------------------------------------------------------------
// Global shortcuts
// ---------------------------------------------------------------------------

/// A shortcut setting: trimmed; blank or longer than 64 bytes gives `default`.
pub open spec fn norm_shortcut(s: Seq<char>, default: Seq<char>) -> Seq<char> {
    if trim(s).len() == 0 || byte_len(trim(s)) > 64 {
        default
    } else {
        trim(s)
    }
}

pub fn normalize_shortcut_token(s: &str, default: &str) -> (r: String)
    ensures
        r@ == norm_shortcut(s@, default@),
{
    let v = to_chars(s);
    let t = trim_vec(&v);
    if t.len() == 0 || byte_len_exceeds(&t, 64) {
        owned(default)
    } else {
        from_chars(t.as_slice())
    }
}

/// The views of a list of strings.
pub open spec fn views(v: Seq<String>) -> Seq<Seq<char>> {
    v.map_values(|s: String| s@)
}

/// The views of a list of string slices.
pub open spec fn str_views(v: Seq<&str>) -> Seq<Seq<char>> {
    v.map_values(|s: &str| s@)
}

/// The shortcut used when every candidate is taken: `Ctrl+Shift+<n + 9>`.
pub open spec fn numbered_shortcut(n: nat) -> Seq<char> {
    let k: nat = if n + 9 <= usize::MAX { (n + 9) as nat } else { usize::MAX as nat };
    "Ctrl+Shift+"@ + decimal(k)
}

/// The first candidate that is not in `used`; `numbered_shortcut` when there is none.
pub open spec fn first_free(cands: Seq<Seq<char>>, used: Seq<Seq<char>>) -> Seq<char>
    decreases cands.len(),
{
    if cands.len() == 0 {
        numbered_shortcut(used.len())
    } else if !used.contains(cands[0]) {
        cands[0]
    } else {
        first_free(cands.drop_first(), used)
    }
}

/// When some candidate is free, the one picked is a free candidate.
pub proof fn lemma_first_free_is_free(cands: Seq<Seq<char>>, used: Seq<Seq<char>>, k: int)
    requires
        0 <= k < cands.len(),
        !used.contains(cands[k]),
    ensures
        !used.contains(first_free(cands, used)),
        cands.contains(first_free(cands, used)),
    decreases cands.len(),
{
    if used.contains(cands[0]) {
        assert(cands.drop_first()[k - 1] == cands[k]);
        lemma_first_free_is_free(cands.drop_first(), used, k - 1);
        let r = first_free(cands.drop_first(), used);
        let j = choose|j: int| 0 <= j < cands.drop_first().len() && cands.drop_first()[j] == r;
        assert(cands[j + 1] == r);
    } else {
        assert(cands[0] == first_free(cands, used));
    }
}

pub fn contains_string(used: &Vec<String>, s: &String) -> (r: bool)
    ensures
        r == views(used@).contains(s@),
{
    let n = used.len();
    let mut i: usize = 0;
    while i < n
        invariant
            n == used@.len(),
            i <= n,
            forall|j: int| 0 <= j < i ==> used@[j]@ != s@,
        decreases n - i,
    {
        if used[i] == *s {
            assert(views(used@)[i as int] == s@);
            return true;
        }
        i = i + 1;
    }
    proof {
        if views(used@).contains(s@) {
            let j = choose|j: int| 0 <= j < views(used@).len() && views(used@)[j] == s@;
            assert(used@[j]@ == s@);
        }
    }
    false
}

pub fn pick_distinct_shortcut(
    preferred: String,
    default: &str,
    fallbacks: &[&str],
    used: &mut Vec<String>,
) -> (r: String)
    requires
        old(used)@.len() < usize::MAX,
    ensures
        r@ == first_free(seq![preferred@, default@] + str_views(fallbacks@), views(old(used)@)),
        final(used)@ == old(used)@.push(r),
{
    let ghost u = views(used@);
    let ghost cands = seq![preferred@, default@] + str_views(fallbacks@);
    if !contains_string(used, &preferred) {
        assert(cands[0] == preferred@);
        let r = preferred.clone();
        used.push(preferred);
        return r;
    }
    assert(cands.drop_first()[0] == default@);
    assert(first_free(cands, u) == first_free(cands.drop_first(), u));
    let d = owned(default);
    if !contains_string(used, &d) {
        let r = d.clone();
        used.push(d);
        return r;
    }
    let n = fallbacks.len();
    let mut i: usize = 0;
    assert(cands.drop_first().drop_first() =~= str_views(fallbacks@));
    assert(str_views(fallbacks@).skip(0) =~= str_views(fallbacks@));
    assert(first_free(cands.drop_first(), u) == first_free(cands.drop_first().drop_first(), u));
    while i < n
        invariant
            n == fallbacks@.len(),
            i <= n,
            views(used@) == u,
            used@ == old(used)@,
            cands == seq![preferred@, default@] + str_views(fallbacks@),
            first_free(cands, u) == first_free(str_views(fallbacks@).skip(i as int), u),
        decreases n - i,
    {
        let c = owned(fallbacks[i]);
        assert(str_views(fallbacks@).skip(i as int)[0] == fallbacks@[i as int]@);
        assert(str_views(fallbacks@).skip(i as int).drop_first() =~= str_views(fallbacks@).skip(
            i + 1,
        ));
        if !contains_string(used, &c) {
            let r = c.clone();
            used.push(c);
            return r;
        }
        i = i + 1;
    }
    assert(str_views(fallbacks@).skip(n as int).len() == 0);
    let k: usize = used.len().saturating_add(9);
    let digits = decimal_string(k);
    let mut r = owned("Ctrl+Shift+");
    let tail = from_chars(digits.as_slice());
    r.append(tail.as_str());
    used.push(r.clone());
    r
}

pub open spec fn file_fallbacks() -> Seq<Seq<char>> {
    seq!["Ctrl+Shift+Y"@, "Ctrl+Shift+U"@, "Ctrl+Shift+I"@]
}

pub open spec fn assist_fallbacks() -> Seq<Seq<char>> {
    seq!["Ctrl+Alt+Shift+Space"@, "Ctrl+Shift+Alt+N"@, "Ctrl+Alt+Shift+N"@]
}

pub open spec fn cycle_fallbacks() -> Seq<Seq<char>> {
    seq!["Ctrl+Alt+Shift+O"@, "Ctrl+Alt+Shift+I"@, "Ctrl+Alt+Shift+K"@]
}

/// The four global shortcuts after normalisation (push-to-talk, file, assist, profile cycle).
pub open spec fn distinct_shortcuts(ptt: Seq<char>, file: Seq<char>, assist: Seq<char>, cycle: Seq<char>) -> (
    Seq<char>,
    Seq<char>,
    Seq<char>,
    Seq<char>,
) {
    let p = norm_shortcut(ptt, "Ctrl+Shift+Space"@);
    let f = first_free(
        seq![norm_shortcut(file, "Ctrl+Shift+T"@), "Ctrl+Shift+T"@] + file_fallbacks(),
        seq![p],
    );
    let a = first_free(
        seq![norm_shortcut(assist, "Ctrl+Alt+Space"@), "Ctrl+Alt+Space"@] + assist_fallbacks(),
        seq![p, f],
    );
    let c = first_free(
        seq![norm_shortcut(cycle, "Ctrl+Alt+Shift+P"@), "Ctrl+Alt+Shift+P"@] + cycle_fallbacks(),
        seq![p, f, a],
    );
    (p, f, a, c)
}

/// Makes the four global shortcuts distinct (priority: push-to-talk, file, assist, profile cycle).
pub fn ensure_distinct_global_shortcuts(cfg: &mut AppConfig)
    ensures
        (final(cfg).ptt_shortcut@, final(cfg).shortcut_transcribe_file@,
            final(cfg).shortcut_ai_assist@, final(cfg).shortcut_cycle_profile@)
            == distinct_shortcuts(
            old(cfg).ptt_shortcut@,
            old(cfg).shortcut_transcribe_file@,
            old(cfg).shortcut_ai_assist@,
            old(cfg).shortcut_cycle_profile@,
        ),
        final(cfg).ptt_shortcut@ != final(cfg).shortcut_transcribe_file@,
        final(cfg).ptt_shortcut@ != final(cfg).shortcut_ai_assist@,
        final(cfg).ptt_shortcut@ != final(cfg).shortcut_cycle_profile@,
        final(cfg).shortcut_transcribe_file@ != final(cfg).shortcut_ai_assist@,
        final(cfg).shortcut_transcribe_file@ != final(cfg).shortcut_cycle_profile@,
        final(cfg).shortcut_ai_assist@ != final(cfg).shortcut_cycle_profile@,
        same_except_shortcuts(*old(cfg), *final(cfg)),
{
    let d_ptt = default_ptt_shortcut();
    let d_file = default_shortcut_transcribe_file();
    let d_assist = default_shortcut_ai_assist();
    let d_cycle = default_shortcut_cycle_profile();
    let fb_file: &[&str] = &["Ctrl+Shift+Y", "Ctrl+Shift+U", "Ctrl+Shift+I"];
    let fb_assist: &[&str] = &["Ctrl+Alt+Shift+Space", "Ctrl+Shift+Alt+N", "Ctrl+Alt+Shift+N"];
    let fb_cycle: &[&str] = &["Ctrl+Alt+Shift+O", "Ctrl+Alt+Shift+I", "Ctrl+Alt+Shift+K"];
    assert(str_views(fb_file@) =~= file_fallbacks());
    assert(str_views(fb_assist@) =~= assist_fallbacks());
    assert(str_views(fb_cycle@) =~= cycle_fallbacks());

    let ptt = normalize_shortcut_token(cfg.ptt_shortcut.as_str(), d_ptt.as_str());
    let mut used: Vec<String> = Vec::new();
    used.push(ptt.clone());
    cfg.ptt_shortcut = ptt;
    assert(views(used@) =~= seq![cfg.ptt_shortcut@]);

    let file_raw = normalize_shortcut_token(cfg.shortcut_transcribe_file.as_str(), d_file.as_str());
    let file = pick_distinct_shortcut(file_raw, d_file.as_str(), fb_file, &mut used);
    cfg.shortcut_transcribe_file = file;
    assert(views(used@) =~= seq![cfg.ptt_shortcut@, cfg.shortcut_transcribe_file@]);

    let assist_raw = normalize_shortcut_token(cfg.shortcut_ai_assist.as_str(), d_assist.as_str());
    let assist = pick_distinct_shortcut(assist_raw, d_assist.as_str(), fb_assist, &mut used);
    cfg.shortcut_ai_assist = assist;
    assert(views(used@) =~= seq![
        cfg.ptt_shortcut@,
        cfg.shortcut_transcribe_file@,
        cfg.shortcut_ai_assist@,
    ]);

    let cycle_raw = normalize_shortcut_token(
        cfg.shortcut_cycle_profile.as_str(),
        d_cycle.as_str(),
    );
    let cycle = pick_distinct_shortcut(cycle_raw, d_cycle.as_str(), fb_cycle, &mut used);
    cfg.shortcut_cycle_profile = cycle;
    proof {
        lemma_distinct_shortcuts_differ(
            old(cfg).ptt_shortcut@,
            old(cfg).shortcut_transcribe_file@,
            old(cfg).shortcut_ai_assist@,
            old(cfg).shortcut_cycle_profile@,
        );
    }
}

/// Every field but the four shortcuts is unchanged.
pub open spec fn same_except_shortcuts(a: AppConfig, b: AppConfig) -> bool {
    &&& b.language == a.language
    &&& b.insert_mode == a.insert_mode
    &&& b.model_tier == a.model_tier
    &&& b.decode_profile == a.decode_profile
    &&& b.status_sounds_enabled == a.status_sounds_enabled
    &&& b.translate_enabled == a.translate_enabled
    &&& b.translate_target == a.translate_target
    &&& b.reformulation_enabled == a.reformulation_enabled
    &&& b.reformulation_api_key == a.reformulation_api_key
    &&& b.reformulation_provider == a.reformulation_provider
    &&& b.reformulation_active_profile_id == a.reformulation_active_profile_id
    &&& b.reformulation_active_profile == a.reformulation_active_profile
    &&& b.reformulation_profiles == a.reformulation_profiles
    &&& b.reformulation_assist_model == a.reformulation_assist_model
    &&& b.stt_mode == a.stt_mode
    &&& b.stt_cloud_model == a.stt_cloud_model
    &&& b.stt_groq_api_key == a.stt_groq_api_key
    &&& b.pipeline_profiles_migrated == a.pipeline_profiles_migrated
}

/// Whatever the four settings hold, the normalised global shortcuts are pairwise
/// different: each of the three later ones always finds a free candidate among its
/// default and three fallbacks.
pub proof fn lemma_distinct_shortcuts_differ(
    ptt: Seq<char>,
    file: Seq<char>,
    assist: Seq<char>,
    cycle: Seq<char>,
)
    ensures
        ({
            let (p, f, a, c) = distinct_shortcuts(ptt, file, assist, cycle);
            p != f && p != a && p != c && f != a && f != c && a != c
        }),
        ({
            let (p, f, a, c) = distinct_shortcuts(ptt, file, assist, cycle);
            &&& (seq![norm_shortcut(file, "Ctrl+Shift+T"@), "Ctrl+Shift+T"@] + file_fallbacks()).contains(f)
            &&& (seq![norm_shortcut(assist, "Ctrl+Alt+Space"@), "Ctrl+Alt+Space"@]
                + assist_fallbacks()).contains(a)
            &&& (seq![norm_shortcut(cycle, "Ctrl+Alt+Shift+P"@), "Ctrl+Alt+Shift+P"@]
                + cycle_fallbacks()).contains(c)
        }),
{
    reveal_strlit("Ctrl+Shift+T");
    reveal_strlit("Ctrl+Shift+Y");
    reveal_strlit("Ctrl+Shift+U");
    reveal_strlit("Ctrl+Shift+I");
    reveal_strlit("Ctrl+Alt+Space");
    reveal_strlit("Ctrl+Alt+Shift+Space");
    reveal_strlit("Ctrl+Shift+Alt+N");
    reveal_strlit("Ctrl+Alt+Shift+N");
    reveal_strlit("Ctrl+Alt+Shift+P");
    reveal_strlit("Ctrl+Alt+Shift+O");
    reveal_strlit("Ctrl+Alt+Shift+I");
    reveal_strlit("Ctrl+Alt+Shift+K");
    let (p, f, a, c) = distinct_shortcuts(ptt, file, assist, cycle);
    let fc = seq![norm_shortcut(file, "Ctrl+Shift+T"@), "Ctrl+Shift+T"@] + file_fallbacks();
    let ac = seq![norm_shortcut(assist, "Ctrl+Alt+Space"@), "Ctrl+Alt+Space"@]
        + assist_fallbacks();
    let cc = seq![norm_shortcut(cycle, "Ctrl+Alt+Shift+P"@), "Ctrl+Alt+Shift+P"@]
        + cycle_fallbacks();
    assert(fc[1] == "Ctrl+Shift+T"@ && fc[2] == "Ctrl+Shift+Y"@);
    assert(fc[1][11] != fc[2][11]);
    assert(ac[1] == "Ctrl+Alt+Space"@ && ac[2] == "Ctrl+Alt+Shift+Space"@ && ac[3]
        == "Ctrl+Shift+Alt+N"@);
    assert(ac[1].len() != ac[2].len() && ac[1].len() != ac[3].len() && ac[2].len()
        != ac[3].len());
    assert(cc[1] == "Ctrl+Alt+Shift+P"@ && cc[2] == "Ctrl+Alt+Shift+O"@ && cc[3]
        == "Ctrl+Alt+Shift+I"@ && cc[4] == "Ctrl+Alt+Shift+K"@);
    assert(cc[1][15] != cc[2][15] && cc[1][15] != cc[3][15] && cc[1][15] != cc[4][15]
        && cc[2][15] != cc[3][15] && cc[2][15] != cc[4][15] && cc[3][15] != cc[4][15]);
    // file: one shortcut taken, the default and the first fallback differ
    let u1 = seq![p];
    assert(u1.len() == 1 && u1[0] == p);
    if u1.contains(fc[1]) {
        assert(fc[1] == p);
        assert(fc[2] != p);
        assert(!u1.contains(fc[2]));
        lemma_first_free_is_free(fc, u1, 2);
    } else {
        lemma_first_free_is_free(fc, u1, 1);
    }
    assert(u1.contains(p));
    // assist: two taken, three distinct candidates
    let u2 = seq![p, f];
    assert(u2.len() == 2 && u2[0] == p && u2[1] == f);
    if !u2.contains(ac[1]) {
        lemma_first_free_is_free(ac, u2, 1);
    } else if !u2.contains(ac[2]) {
        lemma_first_free_is_free(ac, u2, 2);
    } else {
        assert(ac[1] == p || ac[1] == f);
        assert(ac[2] == p || ac[2] == f);
        assert(ac[3] != p && ac[3] != f);
        assert(!u2.contains(ac[3]));
        lemma_first_free_is_free(ac, u2, 3);
    }
    assert(u2.contains(p) && u2.contains(f));
    // cycle: three taken, four distinct candidates
    let u3 = seq![p, f, a];
    assert(u3.len() == 3 && u3[0] == p && u3[1] == f && u3[2] == a);
    if !u3.contains(cc[1]) {
        lemma_first_free_is_free(cc, u3, 1);
    } else if !u3.contains(cc[2]) {
        lemma_first_free_is_free(cc, u3, 2);
    } else if !u3.contains(cc[3]) {
        lemma_first_free_is_free(cc, u3, 3);
    } else {
        assert(cc[1] == p || cc[1] == f || cc[1] == a);
        assert(cc[2] == p || cc[2] == f || cc[2] == a);
        assert(cc[3] == p || cc[3] == f || cc[3] == a);
        assert(cc[4] != p && cc[4] != f && cc[4] != a);
        assert(!u3.contains(cc[4]));
        lemma_first_free_is_free(cc, u3, 4);
    }
    assert(u3.contains(p) && u3.contains(f) && u3.contains(a));
}


} // verus!
