use voxpill::translate::{
    check_translation_reply, join_translations, mymemory_url, plan_translation,
    translation_chunks, translation_splits_cleanly, TranslationPlan,
};

#[test]
fn nothing_to_send() {
    match plan_translation("", "fr", "en") {
        TranslationPlan::Done(s) => assert_eq!(s, ""),
        _ => panic!("empty text is sent"),
    }
    match plan_translation("  Bonjour ", " EN", "en ") {
        TranslationPlan::Done(s) => assert_eq!(s, "  Bonjour "),
        _ => panic!("same language is sent"),
    }
}

#[test]
fn short_text_goes_whole() {
    match plan_translation("  Bonjour  ", "fr", "en") {
        TranslationPlan::Send(v) => assert_eq!(v, vec!["  Bonjour  ".to_string()]),
        _ => panic!("not sent"),
    }
}

#[test]
fn long_text_is_cut_at_whitespace() {
    let word = "abcdefghi "; // 10 bytes
    let text = word.repeat(100); // 1000 bytes
    assert!(translation_splits_cleanly(&text));
    let chunks = translation_chunks(&text);
    assert!(chunks.len() >= 3);
    for c in &chunks {
        assert!(c.len() <= 420);
        assert_eq!(c.trim(), c);
        assert!(!c.is_empty());
    }
    assert_eq!(chunks.join(" "), text.trim());
    // only whitespace is lost at the cuts
    let strip = |s: &str| s.chars().filter(|c| !c.is_whitespace()).collect::<String>();
    let mixed = format!("{}\t{}\n  {}", "x".repeat(410), "y ".repeat(200), "z".repeat(500));
    let pieces = translation_chunks(&mixed);
    assert_eq!(strip(&pieces.concat()), strip(&mixed));
    match plan_translation(&text, "fr", "en") {
        TranslationPlan::Send(v) => assert_eq!(v, chunks),
        _ => panic!("not sent"),
    }
}

#[test]
fn long_word_is_cut_at_the_limit() {
    let text = "é".repeat(300); // 600 bytes, no whitespace
    let chunks = translation_chunks(&text);
    assert_eq!(chunks.len(), 2);
    assert_eq!(chunks[0].len(), 420);
    assert_eq!(chunks[1].len(), 180);
}

#[test]
fn multibyte_whitespace_cut_is_refused() {
    let text = format!("{}\u{3000}{}", "a".repeat(300), "b".repeat(300));
    assert!(!translation_splits_cleanly(&text));
    let ok = format!("{} {}", "a".repeat(300), "b".repeat(300));
    assert!(translation_splits_cleanly(&ok));
    let chunks = translation_chunks(&ok);
    assert_eq!(chunks, vec!["a".repeat(300), "b".repeat(300)]);
    // nothing is cut when source and target agree
    match plan_translation(&text, "fr", "FR") {
        TranslationPlan::Done(s) => assert_eq!(s, text),
        _ => panic!("same language is sent"),
    }
}

#[test]
fn joining_translations() {
    assert_eq!(join_translations(&vec![]), "");
    assert_eq!(join_translations(&vec!["Hello".to_string()]), "Hello");
    assert_eq!(
        join_translations(&vec!["".to_string(), "a".to_string(), "b".to_string()]),
        "a b"
    );
    assert_eq!(join_translations(&vec!["a".to_string(), "".to_string()]), "a ");
}

#[test]
fn request_url_is_percent_encoded() {
    let u = mymemory_url("a b&é~", "fr", "en");
    assert_eq!(u, "https://api.mymemory.translated.net/get?q=a%20b%26%C3%A9~&langpair=fr|en");
    let plain = mymemory_url("Hello", "en", "de");
    assert_eq!(plain, "https://api.mymemory.translated.net/get?q=Hello&langpair=en|de");
}

#[test]
fn replies() {
    assert_eq!(check_translation_reply(Some("Hallo".to_string())), Ok("Hallo".to_string()));
    assert_eq!(
        check_translation_reply(None),
        Err("Réponse de traduction invalide".to_string())
    );
    assert_eq!(
        check_translation_reply(Some("MYMEMORY WARNING: YOU USED ALL".to_string())),
        Err("Limite de traduction atteinte (MyMemory). Réessayez plus tard.".to_string())
    );
}
