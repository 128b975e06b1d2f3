use genesis_text::{default_request, hello_from_bin, translation_outcome, translation_request};

#[test]
fn default_request_targets_english_and_detects_source() {
    let req = default_request("hola");
    assert_eq!(req.text, "hola");
    assert_eq!(req.source, "");
    assert_eq!(req.target, "en");
}

#[test]
fn empty_target_hint_means_english() {
    let req = translation_request("bonjour", "fr", "");
    assert_eq!(req.text, "bonjour");
    assert_eq!(req.source, "fr");
    assert_eq!(req.target, "en");
}

#[test]
fn explicit_target_hint_is_kept() {
    let req = translation_request("hello", "", "es");
    assert_eq!(req.source, "");
    assert_eq!(req.target, "es");
}

#[test]
fn translate_hola_with_stub_backend() {
    let req = default_request("hola");
    let out = translation_outcome(Ok("hello".to_string())).ok().unwrap();
    assert!(!out.is_empty());
    assert_ne!(out, req.text);
}

#[test]
fn translated_text_is_passed_on_unchanged() {
    let out = translation_outcome(Ok("  Hello, World \n".to_string()));
    assert_eq!(out.ok().unwrap(), "  Hello, World \n");
}

#[test]
fn backend_failure_is_a_translation_error() {
    let out = translation_outcome(Err("ConnectFailed error: unreachable".to_string()));
    match out {
        Ok(_) => panic!("a failed backend must not yield text"),
        Err(e) => assert_eq!(e.detail, "ConnectFailed error: unreachable"),
    }
}

#[test]
fn empty_translation_is_distinct_from_failure() {
    let empty = translation_outcome(Ok(String::new()));
    assert_eq!(empty.ok().unwrap(), "");
    let failed = translation_outcome(Err(String::new()));
    assert!(failed.is_err());
}

#[test]
fn greeting_lists_the_features() {
    assert_eq!(
        hello_from_bin(),
        "Hello I am CASY. What can I do for you Buddy \n 1. Translation \n 2. AI Productivity \n 3. Teleprompter!"
    );
}
