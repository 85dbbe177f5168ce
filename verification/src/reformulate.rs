//! LLM reformulation and voice-assistant requests (OpenAI-compatible chat
//! completions on Groq or OpenRouter): what is sent, and what is kept of the reply.

use vstd::prelude::*;
use crate::text::{
    byte_len, from_chars, is_blank, lower, lower_vec, owned, starts_with, starts_with_vec,
    str_byte_len, sub_chars, to_chars, trim, trim_vec, trimmed, trimmed_lower, chars_eq_str,
};

verus! {

/// Model and prompt of one profile, as the reformulation step sees them.
#[derive(Debug)]
pub struct ReformulationProfileSnap {
    pub model: String,
    pub prompt: String,
}

/// Everything the reformulation and assistant requests need from the settings.
#[derive(Debug)]
pub struct ReformulationParams {
    pub enabled: bool,
    pub api_key: String,
    pub provider: String,
    /// 1-based index of the active profile.
    pub active_profile: u8,
    pub profiles: Vec<ReformulationProfileSnap>,
    /// When not blank: the model of the voice assistant, in place of the active profile's.
    pub assist_model_override: String,
}

/// One chat-completion request, ready to be sent.
#[derive(Debug)]
pub struct ChatRequest {
    pub url: String,
    /// Sent as `Authorization: Bearer <key>`.
    pub api_key: String,
    /// OpenRouter also gets the `HTTP-Referer` and `X-Title` headers.
    pub openrouter: bool,
    pub model: String,
    pub system: String,
    pub user: String,
    /// Sampling temperature in hundredths.
    pub temperature_centi: u32,
    pub max_tokens: u32,
    pub timeout_secs: u64,
}

/// The part of a chat-completion reply that is read.
#[derive(Debug)]
pub struct ChatReply {
    /// The reply has a `choices` list.
    pub has_choices: bool,
    /// `content` of the message of the first choice, when there is one.
    pub first_content: Option<String>,
}

// ---------------------------------------------------------------------------
// Fixed texts
// ---------------------------------------------------------------------------

pub open spec fn groq_url() -> Seq<char> {
    "https://api.groq.com/openai/v1/chat/completions"@
}

pub open spec fn openrouter_url() -> Seq<char> {
    "https://openrouter.ai/api/v1/chat/completions"@
}

/// Output rules appended to every reformulation prompt.
pub open spec fn output_contract() -> Seq<char> {
    "Output contract (always follow, in addition to the instructions above):\n- Return ONLY the rewritten transcript as plain text \u{2014} one continuous block, nothing else.\n- Keep EXACTLY the same language as the input transcript. Never translate.\n- Do NOT write any introduction, preamble, title, label, or explanation (e.g. no \"Here is\", \"Voici\", \"Sure\", \"Below is\", \"The reformulation is\", or similar).\n- Do NOT describe what you did or repeat the task; do not answer in a conversational tone.\n- Do NOT wrap the entire answer in quotation marks unless the original transcript clearly required them.\n- If the transcript is empty or whitespace, return nothing (empty response)."@
}

fn output_contract_text() -> (r: &'static str)
    ensures
        r@ == output_contract(),
{
    "Output contract (always follow, in addition to the instructions above):\n- Return ONLY the rewritten transcript as plain text \u{2014} one continuous block, nothing else.\n- Keep EXACTLY the same language as the input transcript. Never translate.\n- Do NOT write any introduction, preamble, title, label, or explanation (e.g. no \"Here is\", \"Voici\", \"Sure\", \"Below is\", \"The reformulation is\", or similar).\n- Do NOT describe what you did or repeat the task; do not answer in a conversational tone.\n- Do NOT wrap the entire answer in quotation marks unless the original transcript clearly required them.\n- If the transcript is empty or whitespace, return nothing (empty response)."
}

pub open spec fn system_fallback() -> Seq<char> {
    "You rewrite dictated text for clarity (e.g. for software / IDE use when relevant). Preserve meaning and language; do not invent facts, steps, or code."@
}

/// The system prompt used when a profile's prompt is empty.
pub fn default_system_fallback() -> (r: String)
    ensures
        r@ == system_fallback(),
{
    owned(
        "You rewrite dictated text for clarity (e.g. for software / IDE use when relevant). Preserve meaning and language; do not invent facts, steps, or code.",
    )
}

/// The system message of a reformulation: the profile's prompt (or the
/// fallback when it is empty), a blank line, then the output contract.
pub open spec fn system_content(user_prompt: Seq<char>) -> Seq<char> {
    (if user_prompt.len() == 0 {
        system_fallback()
    } else {
        user_prompt
    }) + "\n\n"@ + output_contract()
}

pub fn build_system_content(user_prompt: &str) -> (r: String)
    ensures
        r@ == system_content(user_prompt@),
{
    let mut base = if to_chars(user_prompt).len() == 0 {
        default_system_fallback()
    } else {
        owned(user_prompt)
    };
    base.append("\n\n");
    base.append(output_contract_text());
    base
}

// ---------------------------------------------------------------------------
// Cleaning a reply
// ---------------------------------------------------------------------------

/// The reply opens like a preamble ("Voici …", "Here is …", "Sure, …").
pub open spec fn looks_meta(low: Seq<char>) -> bool {
    ||| starts_with(low, "voici"@)
    ||| starts_with(low, "here is"@)
    ||| starts_with(low, "here's"@)
    ||| starts_with(low, "sure,"@)
    ||| starts_with(low, "sure "@)
    ||| starts_with(low, "below is"@)
    ||| starts_with(low, "the reformulation"@)
}

/// `s` without its leading `"`, `«` and `'` characters.
pub open spec fn strip_quotes(s: Seq<char>) -> Seq<char>
    decreases s.len(),
{
    if s.len() > 0 && (s[0] == '"' || s[0] == '\u{ab}' || s[0] == '\'') {
        strip_quotes(s.drop_first())
    } else {
        s
    }
}

/// Index of the first `c` in `s` from `from` on.
pub open spec fn index_of_char(s: Seq<char>, c: char, from: int) -> Option<int>
    decreases s.len() - from,
{
    if from < 0 || from >= s.len() {
        None
    } else if s[from] == c {
        Some(from)
    } else {
        index_of_char(s, c, from + 1)
    }
}

/// A reply trimmed, and cut after its first `:` when it opens like a preamble
/// and what follows is not blank and shorter than the whole by more than 8 bytes.
pub open spec fn strip_preamble(s: Seq<char>) -> Seq<char> {
    let t = trim(s);
    if looks_meta(lower(t)) {
        match index_of_char(t, ':', 0) {
            Some(p) => {
                let after = strip_quotes(trim(t.skip(p + 1)));
                if after.len() > 0 && byte_len(after) + 8 < byte_len(t) {
                    after
                } else {
                    t
                }
            },
            None => t,
        }
    } else {
        t
    }
}

fn starts_with_lit(s: &Vec<char>, lit: &str) -> (r: bool)
    ensures
        r == starts_with(s@, lit@),
{
    let p = to_chars(lit);
    starts_with_vec(s, &p)
}

fn index_of_colon(v: &Vec<char>) -> (r: Option<usize>)
    ensures
        r matches Some(k) ==> index_of_char(v@, ':', 0) == Some(k as int) && k < v@.len(),
        r is None ==> index_of_char(v@, ':', 0) is None,
{
    let n = v.len();
    let mut i: usize = 0;
    while i < n
        invariant
            n == v@.len(),
            i <= n,
            index_of_char(v@, ':', 0) == index_of_char(v@, ':', i as int),
        decreases n - i,
    {
        if v[i] == ':' {
            return Some(i);
        }
        i = i + 1;
    }
    None
}

fn strip_quotes_vec(v: &Vec<char>) -> (r: Vec<char>)
    ensures
        r@ == strip_quotes(v@),
{
    let n = v.len();
    let mut i: usize = 0;
    assert(v@.skip(0) =~= v@);
    while i < n && (v[i] == '"' || v[i] == '\u{ab}' || v[i] == '\'')
        invariant
            n == v@.len(),
            i <= n,
            strip_quotes(v@) == strip_quotes(v@.skip(i as int)),
        decreases n - i,
    {
        assert(v@.skip(i as int).drop_first() =~= v@.skip(i + 1));
        i = i + 1;
    }
    let r = sub_chars(v, i, n);
    assert(r@ =~= v@.skip(i as int));
    r
}

/// Safety net for a model that still opens with "Voici … :" / "Here is …:".
pub fn strip_common_preamble(s: &str) -> (r: String)
    ensures
        r@ == strip_preamble(s@),
{
    let v = to_chars(s);
    let t = trim_vec(&v);
    let low = lower_vec(&t);
    let looks = starts_with_lit(&low, "voici") || starts_with_lit(&low, "here is")
        || starts_with_lit(&low, "here's") || starts_with_lit(&low, "sure,")
        || starts_with_lit(&low, "sure ") || starts_with_lit(&low, "below is")
        || starts_with_lit(&low, "the reformulation");
    let ts = from_chars(t.as_slice());
    if looks {
        let tn = t.len();
        match index_of_colon(&t) {
            Some(pos) => {
                assert(pos < tn);
                let rest = sub_chars(&t, pos + 1, tn);
                assert(rest@ =~= t@.skip(pos + 1));
                let rt = trim_vec(&rest);
                let after = strip_quotes_vec(&rt);
                let after_s = from_chars(after.as_slice());
                let after_len = str_byte_len(after_s.as_str());
                let t_len = str_byte_len(ts.as_str());
                if after.len() > 0 && after_len < t_len && t_len - after_len > 8 {
                    return after_s;
                }
            },
            None => {},
        }
    }
    ts
}

/// What is kept of a reformulation or assistant reply: the first choice's
/// content, trimmed and cleaned of a preamble; nothing when that is empty.
pub open spec fn kept_reply(content: Option<Seq<char>>) -> Option<Seq<char>> {
    match content {
        None => None,
        Some(c) => if strip_preamble(trim(c)).len() == 0 {
            None
        } else {
            Some(strip_preamble(trim(c)))
        },
    }
}

pub open spec fn opt_view(o: Option<String>) -> Option<Seq<char>> {
    match o {
        Some(s) => Some(s@),
        None => None,
    }
}

pub fn finish_reformulation(reply: ChatReply) -> (r: Option<String>)
    ensures
        opt_view(r) == kept_reply(if reply.has_choices { opt_view(reply.first_content) } else { None }),
{
    if !reply.has_choices {
        return None;
    }
    match reply.first_content {
        None => None,
        Some(c) => {
            let t = trimmed(c.as_str());
            let out = strip_common_preamble(t.as_str());
            if to_chars(out.as_str()).len() == 0 {
                None
            } else {
                Some(out)
            }
        },
    }
}

// ---------------------------------------------------------------------------
// Requests
// ---------------------------------------------------------------------------

/// Normalised provider name: `groq` or `openrouter` when supported.
pub open spec fn provider_ok(p: Seq<char>) -> bool {
    lower(trim(p)) == "groq"@ || lower(trim(p)) == "openrouter"@
}

pub open spec fn url_for(provider: Seq<char>) -> Seq<char> {
    if provider == "groq"@ {
        groq_url()
    } else {
        openrouter_url()
    }
}

/// Index of the active profile (1-based, 0 read as 1).
pub open spec fn active_slot(p: ReformulationParams) -> int {
    if p.active_profile == 0 {
        0
    } else {
        p.active_profile - 1
    }
}

pub open spec fn reformulation_user_message(text: Seq<char>) -> Seq<char> {
    "Rewrite the transcript below in the same language as the transcript (do not translate). Reply with the rewritten text only \u{2014} no other words before or after.\n\n---\n"@
        + text + "\n---"@
}

/// A request with the given pieces.
pub open spec fn request_is(
    r: ChatRequest,
    provider: Seq<char>,
    key: Seq<char>,
    model: Seq<char>,
    system: Seq<char>,
    user: Seq<char>,
    temperature_centi: u32,
    max_tokens: u32,
    timeout_secs: u64,
) -> bool {
    &&& r.url@ == url_for(provider)
    &&& r.openrouter == (provider == "openrouter"@)
    &&& r.api_key@ == key
    &&& r.model@ == model
    &&& r.system@ == system
    &&& r.user@ == user
    &&& r.temperature_centi == temperature_centi
    &&& r.max_tokens == max_tokens
    &&& r.timeout_secs == timeout_secs
}

/// The reformulation request of a transcript, when reformulation is on, the key
/// is set, the provider is supported and the active profile has a model.
pub open spec fn reformulation_request_ok(p: ReformulationParams) -> bool {
    let k = active_slot(p);
    &&& p.enabled
    &&& trim(p.api_key@).len() > 0
    &&& provider_ok(p.provider@)
    &&& 0 <= k < p.profiles@.len()
    &&& trim(p.profiles@[k].model@).len() > 0
}

fn make_request(
    provider_norm: &Vec<char>,
    key: String,
    model: String,
    system: String,
    user: String,
    temperature_centi: u32,
    max_tokens: u32,
    timeout_secs: u64,
) -> (r: ChatRequest)
    requires
        provider_norm@ == "groq"@ || provider_norm@ == "openrouter"@,
    ensures
        request_is(
            r,
            provider_norm@,
            key@,
            model@,
            system@,
            user@,
            temperature_centi,
            max_tokens,
            timeout_secs,
        ),
{
    let groq = chars_eq_str(provider_norm, "groq");
    let url = if groq {
        owned("https://api.groq.com/openai/v1/chat/completions")
    } else {
        owned("https://openrouter.ai/api/v1/chat/completions")
    };
    let openrouter = chars_eq_str(provider_norm, "openrouter");
    ChatRequest {
        url,
        api_key: key,
        openrouter,
        model,
        system,
        user,
        temperature_centi,
        max_tokens,
        timeout_secs,
    }
}

fn provider_supported(p: &str) -> (r: Vec<char>)
    ensures
        r@ == lower(trim(p@)),
{
    let v = to_chars(p);
    let t = trim_vec(&v);
    lower_vec(&t)
}

/// The chat request that reformulates `user_text`, or `None` when reformulation
/// cannot be attempted (the reply then falls back to the raw transcript).
pub fn plan_reformulation(params: &ReformulationParams, user_text: &str) -> (r: Option<ChatRequest>)
    ensures
        r is Some <==> reformulation_request_ok(*params),
        r matches Some(q) ==> request_is(
            q,
            lower(trim(params.provider@)),
            trim(params.api_key@),
            trim(params.profiles@[active_slot(*params)].model@),
            system_content(trim(params.profiles@[active_slot(*params)].prompt@)),
            reformulation_user_message(user_text@),
            15,
            2048,
            45,
        ),
{
    if !params.enabled {
        return None;
    }
    let key = trimmed(params.api_key.as_str());
    if to_chars(key.as_str()).len() == 0 {
        return None;
    }
    let provider = provider_supported(params.provider.as_str());
    if !chars_eq_str(&provider, "groq") && !chars_eq_str(&provider, "openrouter") {
        return None;
    }
    let idx: usize = if params.active_profile == 0 {
        0
    } else {
        (params.active_profile - 1) as usize
    };
    if idx >= params.profiles.len() {
        return None;
    }
    let p = &params.profiles[idx];
    let model = trimmed(p.model.as_str());
    if to_chars(model.as_str()).len() == 0 {
        return None;
    }
    let prompt = trimmed(p.prompt.as_str());
    let system = build_system_content(prompt.as_str());
    let mut user = owned(
        "Rewrite the transcript below in the same language as the transcript (do not translate). Reply with the rewritten text only \u{2014} no other words before or after.\n\n---\n",
    );
    user.append(user_text);
    user.append("\n---");
    Some(make_request(&provider, key, model, system, user, 15, 2048, 45))
}

pub open spec fn assist_system() -> Seq<char> {
    "You are a concise assistant. The user spoke a request (possibly via speech-to-text).\nFulfill the request in the same language as the input when relevant. Output only the answer or content \u{2014} no preamble, no title, no \"Here is\", no meta-commentary."@
}

pub open spec fn assist_system_with_selection() -> Seq<char> {
    "You are a concise assistant. The user message has two parts: \"Selected text\" (content from their editor) and \"Spoken instruction\" (what they want).\nThe selected text is your primary context: names, lists, paragraphs, and facts needed for the task are there. Read it carefully and use it as the subject of the instruction. Do not ask the user to repeat names or details that already appear in the selected text.\nFulfill the spoken instruction using that context. If the instruction asks to add details (dates, clubs, facts, etc.), apply them to the people or items named in the selected text.\nWhen the instruction is only to change, replace, or fix a specific part of the text, keep the rest unchanged (minimal edit). When the instruction is to expand or enrich the whole selection, output the full updated text as requested.\nMatch the language of the instruction and text when relevant. Output only the result \u{2014} no preamble, no title, no \"Here is\", no meta-commentary."@
}

/// The model of the voice assistant: the override when not blank, else the active profile's.
pub open spec fn assist_model(p: ReformulationParams) -> Seq<char> {
    if trim(p.assist_model_override@).len() == 0 {
        trim(p.profiles@[active_slot(p)].model@)
    } else {
        trim(p.assist_model_override@)
    }
}

/// An assistant request can be sent: key set, provider supported, active
/// profile present, a model, and a spoken instruction that is not blank.
pub open spec fn assist_request_ok(p: ReformulationParams, instruction: Seq<char>) -> bool {
    let k = active_slot(p);
    &&& trim(p.api_key@).len() > 0
    &&& provider_ok(p.provider@)
    &&& 0 <= k < p.profiles@.len()
    &&& assist_model(p).len() > 0
    &&& trim(instruction).len() > 0
}

/// System and user messages of an assistant request.
pub open spec fn assist_messages(selected: Option<Seq<char>>, instruction: Seq<char>) -> (Seq<char>, Seq<char>) {
    match selected {
        Some(s) => if trim(s).len() > 0 {
            (
                assist_system_with_selection(),
                "Selected text:\n"@ + trim(s) + "\n\nSpoken instruction:\n"@ + trim(instruction),
            )
        } else {
            (assist_system(), trim(instruction))
        },
        None => (assist_system(), trim(instruction)),
    }
}

/// The chat request answering a spoken instruction, with the text selected in
/// the focused application as context when there is one.
pub fn plan_assist(
    params: &ReformulationParams,
    selected_text: Option<&str>,
    user_instruction: &str,
) -> (r: Option<ChatRequest>)
    ensures
        r is Some <==> assist_request_ok(*params, user_instruction@),
        r matches Some(q) ==> request_is(
            q,
            lower(trim(params.provider@)),
            trim(params.api_key@),
            assist_model(*params),
            assist_messages(
                match selected_text {
                    Some(s) => Some(s@),
                    None => None,
                },
                user_instruction@,
            ).0,
            assist_messages(
                match selected_text {
                    Some(s) => Some(s@),
                    None => None,
                },
                user_instruction@,
            ).1,
            35,
            4096,
            60,
        ),
        r matches Some(q) ==> (trim(params.assist_model_override@).len() > 0 ==> q.model@ == trim(
            params.assist_model_override@,
        )),
        r matches Some(q) ==> (trim(params.assist_model_override@).len() == 0 ==> q.model@ == trim(
            params.profiles@[active_slot(*params)].model@,
        )),
{
    proof {
        crate::laws::lemma_assist_model_choice(*params);
    }
    let key = trimmed(params.api_key.as_str());
    if to_chars(key.as_str()).len() == 0 {
        return None;
    }
    let provider = provider_supported(params.provider.as_str());
    if !chars_eq_str(&provider, "groq") && !chars_eq_str(&provider, "openrouter") {
        return None;
    }
    let idx: usize = if params.active_profile == 0 {
        0
    } else {
        (params.active_profile - 1) as usize
    };
    if idx >= params.profiles.len() {
        return None;
    }
    let p = &params.profiles[idx];
    let override_trim = trimmed(params.assist_model_override.as_str());
    let model = if to_chars(override_trim.as_str()).len() == 0 {
        trimmed(p.model.as_str())
    } else {
        override_trim
    };
    if to_chars(model.as_str()).len() == 0 {
        return None;
    }
    let instruction = trimmed(user_instruction);
    if to_chars(instruction.as_str()).len() == 0 {
        return None;
    }
    let (system, user) = match selected_text {
        Some(s) => {
            if !is_blank(s) {
                let mut u = owned("Selected text:\n");
                let st = trimmed(s);
                u.append(st.as_str());
                u.append("\n\nSpoken instruction:\n");
                u.append(instruction.as_str());
                (
                    owned(
                        "You are a concise assistant. The user message has two parts: \"Selected text\" (content from their editor) and \"Spoken instruction\" (what they want).\nThe selected text is your primary context: names, lists, paragraphs, and facts needed for the task are there. Read it carefully and use it as the subject of the instruction. Do not ask the user to repeat names or details that already appear in the selected text.\nFulfill the spoken instruction using that context. If the instruction asks to add details (dates, clubs, facts, etc.), apply them to the people or items named in the selected text.\nWhen the instruction is only to change, replace, or fix a specific part of the text, keep the rest unchanged (minimal edit). When the instruction is to expand or enrich the whole selection, output the full updated text as requested.\nMatch the language of the instruction and text when relevant. Output only the result \u{2014} no preamble, no title, no \"Here is\", no meta-commentary.",
                    ),
                    u,
                )
            } else {
                (
                    owned(
                        "You are a concise assistant. The user spoke a request (possibly via speech-to-text).\nFulfill the request in the same language as the input when relevant. Output only the answer or content \u{2014} no preamble, no title, no \"Here is\", no meta-commentary.",
                    ),
                    instruction,
                )
            }
        },
        None => (
            owned(
                "You are a concise assistant. The user spoke a request (possibly via speech-to-text).\nFulfill the request in the same language as the input when relevant. Output only the answer or content \u{2014} no preamble, no title, no \"Here is\", no meta-commentary.",
            ),
            instruction,
        ),
    };
    Some(make_request(&provider, key, model, system, user, 35, 4096, 60))
}

// ---------------------------------------------------------------------------
// Refining a prompt draft
// ---------------------------------------------------------------------------

pub open spec fn prompt_refiner_system() -> Seq<char> {
    "You improve user-written prompt drafts for speech-transcript rewriting.\nReturn only the final prompt text.\nDo not add markdown, quotes, headings, or explanations.\nKeep it concise, practical, and robust.\nIf the user draft is vague, infer a complete, high-quality prompt from intent.\nThe prompt must enforce:\n- preserve original meaning and language\n- no invented facts, steps, or code\n- output only rewritten text (no preamble)\n- keep the same language as the dictated transcript (never translate)\n- preserve technical terms and proper names"@
}

/// Which error, if any, refusing a prompt draft gives.
pub open spec fn assist_prompt_error(provider: Seq<char>, api_key: Seq<char>, draft: Seq<char>) -> Option<Seq<char>> {
    if !provider_ok(provider) {
        Some("Unsupported provider. Use Groq or OpenRouter."@)
    } else if trim(api_key).len() == 0 {
        Some("Missing API key. Add your API key first."@)
    } else if trim(draft).len() == 0 {
        Some("Write a draft prompt first, then click Refine prompt."@)
    } else {
        None
    }
}

/// Model for the prompt refiner: the hint when not blank, else a small Llama of the provider.
pub open spec fn refiner_model(provider: Seq<char>, model_hint: Seq<char>) -> Seq<char> {
    if trim(model_hint).len() == 0 {
        if provider == "groq"@ {
            "llama-3.1-8b-instant"@
        } else {
            "meta-llama/llama-3.1-8b-instruct"@
        }
    } else {
        trim(model_hint)
    }
}

/// The request that turns a prompt draft into a production prompt, or the
/// error shown in the settings UI.
pub fn assist_prompt(provider: &str, api_key: &str, draft: &str, model_hint: &str) -> (r: Result<
    ChatRequest,
    String,
>)
    ensures
        match (r, assist_prompt_error(provider@, api_key@, draft@)) {
            (Err(e), Some(m)) => e@ == m,
            (Ok(q), None) => request_is(
                q,
                lower(trim(provider@)),
                trim(api_key@),
                refiner_model(lower(trim(provider@)), model_hint@),
                prompt_refiner_system(),
                "Rewrite this draft into a strong production-ready prompt:\n\n---\n"@ + trim(draft@)
                    + "\n---"@,
                20,
                600,
                45,
            ),
            _ => false,
        },
        r matches Ok(q) ==> (trim(model_hint@).len() > 0 ==> q.model@ == trim(model_hint@)),
        r matches Ok(q) ==> (trim(model_hint@).len() == 0 && lower(trim(provider@)) == "groq"@
            ==> q.model@ == "llama-3.1-8b-instant"@),
        r matches Ok(q) ==> (trim(model_hint@).len() == 0 && lower(trim(provider@)) != "groq"@
            ==> q.model@ == "meta-llama/llama-3.1-8b-instruct"@),
{
    proof {
        crate::laws::lemma_refiner_model_choice(lower(trim(provider@)), model_hint@);
    }
    let p = provider_supported(provider);
    if !chars_eq_str(&p, "groq") && !chars_eq_str(&p, "openrouter") {
        return Err(owned("Unsupported provider. Use Groq or OpenRouter."));
    }
    let key = trimmed(api_key);
    if to_chars(key.as_str()).len() == 0 {
        return Err(owned("Missing API key. Add your API key first."));
    }
    let d = trimmed(draft);
    if to_chars(d.as_str()).len() == 0 {
        return Err(owned("Write a draft prompt first, then click Refine prompt."));
    }
    let mut user = owned("Rewrite this draft into a strong production-ready prompt:\n\n---\n");
    user.append(d.as_str());
    user.append("\n---");
    let hint = trimmed(model_hint);
    let model = if to_chars(hint.as_str()).len() == 0 {
        if chars_eq_str(&p, "groq") {
            owned("llama-3.1-8b-instant")
        } else {
            owned("meta-llama/llama-3.1-8b-instruct")
        }
    } else {
        hint
    };
    let system = owned(
        "You improve user-written prompt drafts for speech-transcript rewriting.\nReturn only the final prompt text.\nDo not add markdown, quotes, headings, or explanations.\nKeep it concise, practical, and robust.\nIf the user draft is vague, infer a complete, high-quality prompt from intent.\nThe prompt must enforce:\n- preserve original meaning and language\n- no invented facts, steps, or code\n- output only rewritten text (no preamble)\n- keep the same language as the dictated transcript (never translate)\n- preserve technical terms and proper names",
    );
    Ok(make_request(&p, key, model, system, user, 20, 600, 45))
}

/// What the prompt refiner's reply gives: its trimmed first content, or an error
/// when the reply has no choices or an empty answer.
pub open spec fn completion_result(has_choices: bool, content: Option<Seq<char>>) -> Result<Seq<char>, Seq<char>> {
    if !has_choices {
        Err("Missing choices in provider response."@)
    } else {
        match content {
            None => Err("Provider returned an empty answer."@),
            Some(c) => if trim(c).len() == 0 {
                Err("Provider returned an empty answer."@)
            } else {
                Ok(trim(c))
            },
        }
    }
}

pub fn finish_prompt_completion(reply: ChatReply) -> (r: Result<String, String>)
    ensures
        match (r, completion_result(reply.has_choices, opt_view(reply.first_content))) {
            (Ok(a), Ok(b)) => a@ == b,
            (Err(a), Err(b)) => a@ == b,
            _ => false,
        },
{
    if !reply.has_choices {
        return Err(owned("Missing choices in provider response."));
    }
    match reply.first_content {
        None => Err(owned("Provider returned an empty answer.")),
        Some(c) => {
            let t = trimmed(c.as_str());
            if to_chars(t.as_str()).len() == 0 {
                Err(owned("Provider returned an empty answer."))
            } else {
                Ok(t)
            }
        },
    }
}

} // verus!
