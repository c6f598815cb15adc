use aynary::api::{Definition, DictionaryClient, DictionaryEntry, LookupError, Meaning};

fn entry(word: &str) -> DictionaryEntry {
    DictionaryEntry {
        word: word.to_string(),
        phonetic: None,
        phonetics: Vec::new(),
        meanings: Vec::new(),
        license: None,
        source_urls: Vec::new(),
    }
}

fn words(v: &[DictionaryEntry]) -> Vec<String> {
    v.iter().map(|e| e.word.clone()).collect()
}

fn run_store() -> DictionaryClient {
    DictionaryClient::from_entries(vec![entry("run"), entry("runner"), entry("running")])
}

#[test]
fn run_is_an_exact_match() {
    let c = run_store();
    let r = c.lookup("run").unwrap();
    assert_eq!(words(&r), vec!["run"]);
}

#[test]
fn runn_falls_back_to_prefix_matches() {
    let c = run_store();
    let r = c.lookup("runn").unwrap();
    assert_eq!(words(&r), vec!["runner", "running"]);
}

#[test]
fn sprint_is_not_found() {
    let c = run_store();
    assert_eq!(c.lookup("sprint").unwrap_err(), LookupError::NotFound("sprint".to_string()));
}

#[test]
fn exact_match_ignores_case_and_keeps_store_order() {
    let c = DictionaryClient::from_entries(vec![
        entry("Run"),
        entry("runway"),
        entry("RUN"),
        entry("rerun"),
    ]);
    let r = c.lookup("rUn").unwrap();
    assert_eq!(words(&r), vec!["Run", "RUN"]);
}

#[test]
fn prefix_match_ignores_case() {
    let c = DictionaryClient::from_entries(vec![entry("Apple"), entry("banana"), entry("APPLET")]);
    let r = c.lookup("app").unwrap();
    assert_eq!(words(&r), vec!["Apple", "APPLET"]);
}

#[test]
fn query_is_trimmed_before_matching() {
    let c = run_store();
    let r = c.lookup("  \tRUN\n ").unwrap();
    assert_eq!(words(&r), vec!["run"]);
}

#[test]
fn empty_and_blank_queries_fail() {
    let c = run_store();
    assert_eq!(c.lookup("").unwrap_err(), LookupError::EmptyQuery);
    assert_eq!(c.lookup("   ").unwrap_err(), LookupError::EmptyQuery);
    assert_eq!(c.lookup("\u{3000}\t\n").unwrap_err(), LookupError::EmptyQuery);
}

#[test]
fn not_found_carries_the_trimmed_term() {
    let c = run_store();
    assert_eq!(c.lookup("  sprint  ").unwrap_err(), LookupError::NotFound("sprint".to_string()));
}

#[test]
fn empty_store_finds_nothing() {
    let c = DictionaryClient::new();
    assert_eq!(c.len(), 0);
    assert_eq!(c.lookup("run").unwrap_err(), LookupError::NotFound("run".to_string()));
}

#[test]
fn lookup_returns_full_copies() {
    let mut e = entry("run");
    e.phonetic = Some("/rʌn/".to_string());
    e.source_urls = vec!["https://example.org/run".to_string()];
    e.meanings = vec![Meaning {
        part_of_speech: "verb".to_string(),
        definitions: vec![Definition {
            definition: "To move fast.".to_string(),
            synonyms: vec!["sprint".to_string()],
            antonyms: vec!["walk".to_string()],
            example: Some("Run home.".to_string()),
        }],
        synonyms: vec!["dash".to_string()],
        antonyms: Vec::new(),
    }];
    let c = DictionaryClient::from_entries(vec![e]);
    let r = c.lookup("run").unwrap();
    assert_eq!(r.len(), 1);
    assert_eq!(r[0].phonetic.as_deref(), Some("/rʌn/"));
    assert_eq!(r[0].source_urls, vec!["https://example.org/run".to_string()]);
    assert_eq!(r[0].meanings[0].definitions[0].example.as_deref(), Some("Run home."));
    assert_eq!(r[0].meanings[0].definitions[0].antonyms, vec!["walk".to_string()]);
    assert_eq!(r[0].meanings[0].synonyms, vec!["dash".to_string()]);
}

#[test]
fn error_messages() {
    assert_eq!(LookupError::EmptyQuery.message(), "Please enter a word to look up.");
    assert_eq!(
        LookupError::NotFound("zz".to_string()).message(),
        "No offline entry found for 'zz'."
    );
}

#[test]
fn lookup_text_shows_errors() {
    let c = run_store();
    assert_eq!(c.lookup_text("  "), "Error: Please enter a word to look up.");
    assert_eq!(c.lookup_text("zz"), "Error: No offline entry found for 'zz'.");
    assert_eq!(c.lookup_text("runner"), "runner\n");
}

#[test]
fn cloned_client_keeps_its_store() {
    let c = run_store().clone();
    assert_eq!(c.len(), 3);
    assert_eq!(words(&c.lookup("runn").unwrap()), vec!["runner", "running"]);
}
