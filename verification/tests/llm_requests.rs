use voxpill::reformulate::{
    assist_prompt, build_system_content, default_system_fallback, finish_prompt_completion,
    finish_reformulation, plan_assist, plan_reformulation, strip_common_preamble, ChatReply,
    ReformulationParams, ReformulationProfileSnap,
};

fn params(enabled: bool, key: &str, provider: &str, active: u8) -> ReformulationParams {
    ReformulationParams {
        enabled,
        api_key: key.to_string(),
        provider: provider.to_string(),
        active_profile: active,
        profiles: vec![
            ReformulationProfileSnap { model: " llama ".to_string(), prompt: "  Be brief. ".to_string() },
            ReformulationProfileSnap { model: "  ".to_string(), prompt: "".to_string() },
        ],
        assist_model_override: String::new(),
    }
}

#[test]
fn preamble_is_stripped() {
    assert_eq!(
        strip_common_preamble("  Voici la reformulation : « Bonjour tout le monde »  "),
        " Bonjour tout le monde »"
    );
    assert_eq!(
        strip_common_preamble("Here is the rewritten text: \"Please send the report today.\""),
        "Please send the report today.\""
    );
    // too short after the colon: kept whole
    assert_eq!(strip_common_preamble("Voici: abc"), "Voici: abc");
    assert_eq!(strip_common_preamble("Sure, here: ok"), "ok");
    // no preamble
    assert_eq!(strip_common_preamble("  Note: the meeting moved.  "), "Note: the meeting moved.");
    // no colon
    assert_eq!(strip_common_preamble("Voici le texte"), "Voici le texte");
    assert_eq!(strip_common_preamble("   "), "");
}

#[test]
fn system_prompt() {
    let s = build_system_content("Be brief.");
    assert!(s.starts_with("Be brief.\n\nOutput contract"));
    let f = build_system_content("");
    assert!(f.starts_with(&default_system_fallback()));
    assert!(f.ends_with("return nothing (empty response)."));
}

#[test]
fn reformulation_request() {
    assert!(plan_reformulation(&params(false, "k", "groq", 1), "text").is_none());
    assert!(plan_reformulation(&params(true, "  ", "groq", 1), "text").is_none());
    assert!(plan_reformulation(&params(true, "k", "openai", 1), "text").is_none());
    assert!(plan_reformulation(&params(true, "k", "groq", 2), "text").is_none());
    assert!(plan_reformulation(&params(true, "k", "groq", 3), "text").is_none());
    let r = plan_reformulation(&params(true, " k ", " Groq ", 1), "hello").unwrap();
    assert_eq!(r.url, "https://api.groq.com/openai/v1/chat/completions");
    assert_eq!(r.api_key, "k");
    assert!(!r.openrouter);
    assert_eq!(r.model, "llama");
    assert!(r.system.starts_with("Be brief.\n\n"));
    assert!(r.user.ends_with("\n\n---\nhello\n---"));
    assert_eq!((r.temperature_centi, r.max_tokens, r.timeout_secs), (15, 2048, 45));
    let o = plan_reformulation(&params(true, "k", "openrouter", 0), "x").unwrap();
    assert_eq!(o.url, "https://openrouter.ai/api/v1/chat/completions");
    assert!(o.openrouter);
}

#[test]
fn reformulation_reply() {
    let r = finish_reformulation(ChatReply {
        has_choices: true,
        first_content: Some("  Voici le texte reformulé : Nous partons demain matin.  ".to_string()),
    });
    assert_eq!(r, Some("Nous partons demain matin.".to_string()));
    assert_eq!(finish_reformulation(ChatReply { has_choices: true, first_content: Some("   ".to_string()) }), None);
    assert_eq!(finish_reformulation(ChatReply { has_choices: false, first_content: Some("x".to_string()) }), None);
    assert_eq!(finish_reformulation(ChatReply { has_choices: true, first_content: None }), None);
}

#[test]
fn assistant_request() {
    let p = params(false, "k", "groq", 1);
    assert!(plan_assist(&p, None, "   ").is_none());
    let plain = plan_assist(&p, Some("   "), " What time is it? ").unwrap();
    assert_eq!(plain.user, "What time is it?");
    assert!(plain.system.starts_with("You are a concise assistant. The user spoke"));
    assert_eq!((plain.temperature_centi, plain.max_tokens, plain.timeout_secs), (35, 4096, 60));
    let with = plan_assist(&p, Some(" Alice, Bob "), "add ages").unwrap();
    assert_eq!(with.user, "Selected text:\nAlice, Bob\n\nSpoken instruction:\nadd ages");
    assert!(with.system.contains("\"Selected text\""));
    // profile 2 has no model unless the override sets one
    let mut q = params(false, "k", "groq", 2);
    assert!(plan_assist(&q, None, "hi").is_none());
    q.assist_model_override = " gpt ".to_string();
    assert_eq!(plan_assist(&q, None, "hi").unwrap().model, "gpt");
}

#[test]
fn prompt_refiner() {
    assert_eq!(
        assist_prompt("openai", "k", "d", "").err(),
        Some("Unsupported provider. Use Groq or OpenRouter.".to_string())
    );
    assert_eq!(
        assist_prompt("groq", " ", "d", "").err(),
        Some("Missing API key. Add your API key first.".to_string())
    );
    assert_eq!(
        assist_prompt("groq", "k", "  ", "").err(),
        Some("Write a draft prompt first, then click Refine prompt.".to_string())
    );
    let g = assist_prompt(" GROQ", "k", " draft ", "").unwrap();
    assert_eq!(g.model, "llama-3.1-8b-instant");
    assert_eq!(g.user, "Rewrite this draft into a strong production-ready prompt:\n\n---\ndraft\n---");
    assert_eq!((g.temperature_centi, g.max_tokens), (20, 600));
    let o = assist_prompt("openrouter", "k", "d", "").unwrap();
    assert_eq!(o.model, "meta-llama/llama-3.1-8b-instruct");
    let h = assist_prompt("openrouter", "k", "d", " mine ").unwrap();
    assert_eq!(h.model, "mine");
}

#[test]
fn prompt_refiner_reply() {
    assert_eq!(
        finish_prompt_completion(ChatReply { has_choices: false, first_content: None }),
        Err("Missing choices in provider response.".to_string())
    );
    assert_eq!(
        finish_prompt_completion(ChatReply { has_choices: true, first_content: Some(" ".to_string()) }),
        Err("Provider returned an empty answer.".to_string())
    );
    assert_eq!(
        finish_prompt_completion(ChatReply { has_choices: true, first_content: Some(" ok ".to_string()) }),
        Ok("ok".to_string())
    );
}
