use aynary::api::{Definition, DictionaryClient, DictionaryEntry, Meaning};

fn definition(text: &str, example: Option<&str>) -> Definition {
    Definition {
        definition: text.to_string(),
        synonyms: Vec::new(),
        antonyms: Vec::new(),
        example: example.map(|x| x.to_string()),
    }
}

fn sample() -> DictionaryEntry {
    DictionaryEntry {
        word: "run".to_string(),
        phonetic: Some("/rʌn/".to_string()),
        phonetics: Vec::new(),
        meanings: vec![
            Meaning {
                part_of_speech: "phrasal-verb".to_string(),
                definitions: vec![
                    definition("To move swiftly.", Some("She ran home.")),
                    definition("To operate.", None),
                ],
                synonyms: vec!["sprint".to_string(), "dash".to_string(), "race".to_string()],
                antonyms: vec!["walk".to_string()],
            },
            Meaning {
                part_of_speech: "noun".to_string(),
                definitions: vec![definition("An act of running.", None)],
                synonyms: Vec::new(),
                antonyms: Vec::new(),
            },
        ],
        license: None,
        source_urls: Vec::new(),
    }
}

#[test]
fn empty_list_renders_the_fixed_sentence() {
    let c = DictionaryClient::new();
    assert_eq!(c.format_entry(&[]), "No definitions found.");
}

#[test]
fn entry_renders_line_by_line() {
    let c = DictionaryClient::new();
    let expected = "run\n/rʌn/\n\nphrasal verb\n1. To move swiftly.\n   Example: She ran home.\n2. To operate.\n   Synonyms: sprint, dash, race\n\nnoun\n1. An act of running.\n\n";
    assert_eq!(c.format_entry(&[sample()]), expected);
}

#[test]
fn entry_without_pronunciation_or_meanings() {
    let c = DictionaryClient::new();
    let e = DictionaryEntry {
        word: "tsk".to_string(),
        phonetic: None,
        phonetics: Vec::new(),
        meanings: Vec::new(),
        license: None,
        source_urls: Vec::new(),
    };
    assert_eq!(c.format_entry(&[e]), "tsk\n");
}

#[test]
fn entries_follow_one_another() {
    let c = DictionaryClient::new();
    let mut second = sample();
    second.word = "ran".to_string();
    second.phonetic = None;
    second.meanings.truncate(1);
    second.meanings[0].synonyms = vec!["fled".to_string()];
    second.meanings[0].definitions.truncate(1);
    let text = c.format_entry(&[sample(), second]);
    assert!(text.ends_with("\n\nran\nphrasal verb\n1. To move swiftly.\n   Example: She ran home.\n   Synonyms: fled\n\n"));
}

#[test]
fn definitions_past_nine_are_numbered_in_decimal() {
    let c = DictionaryClient::new();
    let defs: Vec<Definition> = (1..=11).map(|i| definition(&format!("d{}", i), None)).collect();
    let e = DictionaryEntry {
        word: "set".to_string(),
        phonetic: None,
        phonetics: Vec::new(),
        meanings: vec![Meaning {
            part_of_speech: "verb".to_string(),
            definitions: defs,
            synonyms: Vec::new(),
            antonyms: Vec::new(),
        }],
        license: None,
        source_urls: Vec::new(),
    };
    let text = c.format_entry(&[e]);
    assert!(text.contains("\n9. d9\n10. d10\n11. d11\n\n"));
}

#[test]
fn rendering_is_deterministic() {
    let c = DictionaryClient::new();
    let a = c.format_entry(&[sample(), sample()]);
    let b = c.format_entry(&[sample(), sample()]);
    assert_eq!(a.as_bytes(), b.as_bytes());
}

#[test]
fn lookup_text_renders_what_is_found() {
    let c = DictionaryClient::from_entries(vec![sample()]);
    assert_eq!(c.lookup_text("RUN"), c.format_entry(&[sample()]));
}
