//! Dictionary entries and the client that resolves queries against a store
//! of them and renders the result as display text.

use crate::matching::{collect_matches, resolved};
use crate::render::{formatted, push_entries};
use crate::text::{chars_of, push_text, trim, trimmed};
use vstd::prelude::*;

verus! {

/// The characters of an optional string.
pub open spec fn opt_text(o: Option<String>) -> Option<Seq<char>> {
    match o {
        Some(s) => Some(s@),
        None => None,
    }
}

/// The characters of each string of a list.
pub open spec fn texts(v: Seq<String>) -> Seq<Seq<char>> {
    v.map_values(|s: String| s@)
}

fn clone_opt_text(o: &Option<String>) -> (r: Option<String>)
    ensures
        opt_text(r) == opt_text(*o),
{
    match o {
        Some(s) => Some(s.clone()),
        None => None,
    }
}

fn clone_texts(v: &Vec<String>) -> (r: Vec<String>)
    ensures
        texts(r@) == texts(v@),
{
    let r = v.clone();
    assert(texts(r@) =~= texts(v@));
    r
}

#[derive(Debug)]
pub struct License {
    pub name: String,
    pub url: String,
}

pub struct LicenseView {
    pub name: Seq<char>,
    pub url: Seq<char>,
}

impl View for License {
    type V = LicenseView;

    open spec fn view(&self) -> LicenseView {
        LicenseView { name: self.name@, url: self.url@ }
    }
}

impl Clone for License {
    fn clone(&self) -> (r: Self)
        ensures
            r@ == self@,
    {
        License { name: self.name.clone(), url: self.url.clone() }
    }
}

#[derive(Debug)]
pub struct Definition {
    pub definition: String,
    pub synonyms: Vec<String>,
    pub antonyms: Vec<String>,
    pub example: Option<String>,
}

pub struct DefinitionView {
    pub definition: Seq<char>,
    pub synonyms: Seq<Seq<char>>,
    pub antonyms: Seq<Seq<char>>,
    pub example: Option<Seq<char>>,
}

impl View for Definition {
    type V = DefinitionView;

    open spec fn view(&self) -> DefinitionView {
        DefinitionView {
            definition: self.definition@,
            synonyms: texts(self.synonyms@),
            antonyms: texts(self.antonyms@),
            example: opt_text(self.example),
        }
    }
}

impl Clone for Definition {
    fn clone(&self) -> (r: Self)
        ensures
            r@ == self@,
    {
        Definition {
            definition: self.definition.clone(),
            synonyms: clone_texts(&self.synonyms),
            antonyms: clone_texts(&self.antonyms),
            example: clone_opt_text(&self.example),
        }
    }
}

fn clone_definitions(v: &Vec<Definition>) -> (r: Vec<Definition>)
    ensures
        r@.map_values(|d: Definition| d@) == v@.map_values(|d: Definition| d@),
{
    let r = v.clone();
    assert(r@.map_values(|d: Definition| d@) =~= v@.map_values(|d: Definition| d@));
    r
}

#[derive(Debug)]
pub struct Meaning {
    pub part_of_speech: String,
    pub definitions: Vec<Definition>,
    pub synonyms: Vec<String>,
    pub antonyms: Vec<String>,
}

pub struct MeaningView {
    pub part_of_speech: Seq<char>,
    pub definitions: Seq<DefinitionView>,
    pub synonyms: Seq<Seq<char>>,
    pub antonyms: Seq<Seq<char>>,
}

impl View for Meaning {
    type V = MeaningView;

    open spec fn view(&self) -> MeaningView {
        MeaningView {
            part_of_speech: self.part_of_speech@,
            definitions: self.definitions@.map_values(|d: Definition| d@),
            synonyms: texts(self.synonyms@),
            antonyms: texts(self.antonyms@),
        }
    }
}

impl Clone for Meaning {
    fn clone(&self) -> (r: Self)
        ensures
            r@ == self@,
    {
        Meaning {
            part_of_speech: self.part_of_speech.clone(),
            definitions: clone_definitions(&self.definitions),
            synonyms: clone_texts(&self.synonyms),
            antonyms: clone_texts(&self.antonyms),
        }
    }
}

fn clone_meanings(v: &Vec<Meaning>) -> (r: Vec<Meaning>)
    ensures
        r@.map_values(|m: Meaning| m@) == v@.map_values(|m: Meaning| m@),
{
    let r = v.clone();
    assert(r@.map_values(|m: Meaning| m@) =~= v@.map_values(|m: Meaning| m@));
    r
}

#[derive(Debug)]
pub struct Phonetic {
    pub text: Option<String>,
    pub audio: Option<String>,
    pub source_url: Option<String>,
    pub license: Option<License>,
}

pub struct PhoneticView {
    pub text: Option<Seq<char>>,
    pub audio: Option<Seq<char>>,
    pub source_url: Option<Seq<char>>,
    pub license: Option<LicenseView>,
}

/// The view of an optional license.
pub open spec fn opt_license(o: Option<License>) -> Option<LicenseView> {
    match o {
        Some(l) => Some(l@),
        None => None,
    }
}

fn clone_opt_license(o: &Option<License>) -> (r: Option<License>)
    ensures
        opt_license(r) == opt_license(*o),
{
    match o {
        Some(l) => Some(l.clone()),
        None => None,
    }
}

impl View for Phonetic {
    type V = PhoneticView;

    open spec fn view(&self) -> PhoneticView {
        PhoneticView {
            text: opt_text(self.text),
            audio: opt_text(self.audio),
            source_url: opt_text(self.source_url),
            license: opt_license(self.license),
        }
    }
}

impl Clone for Phonetic {
    fn clone(&self) -> (r: Self)
        ensures
            r@ == self@,
    {
        Phonetic {
            text: clone_opt_text(&self.text),
            audio: clone_opt_text(&self.audio),
            source_url: clone_opt_text(&self.source_url),
            license: clone_opt_license(&self.license),
        }
    }
}

fn clone_phonetics(v: &Vec<Phonetic>) -> (r: Vec<Phonetic>)
    ensures
        r@.map_values(|p: Phonetic| p@) == v@.map_values(|p: Phonetic| p@),
{
    let r = v.clone();
    assert(r@.map_values(|p: Phonetic| p@) =~= v@.map_values(|p: Phonetic| p@));
    r
}

/// One headword with its pronunciations, senses and provenance.
#[derive(Debug)]
pub struct DictionaryEntry {
    pub word: String,
    pub phonetic: Option<String>,
    pub phonetics: Vec<Phonetic>,
    pub meanings: Vec<Meaning>,
    pub license: Option<License>,
    pub source_urls: Vec<String>,
}

pub struct EntryView {
    pub word: Seq<char>,
    pub phonetic: Option<Seq<char>>,
    pub phonetics: Seq<PhoneticView>,
    pub meanings: Seq<MeaningView>,
    pub license: Option<LicenseView>,
    pub source_urls: Seq<Seq<char>>,
}

impl View for DictionaryEntry {
    type V = EntryView;

    open spec fn view(&self) -> EntryView {
        EntryView {
            word: self.word@,
            phonetic: opt_text(self.phonetic),
            phonetics: self.phonetics@.map_values(|p: Phonetic| p@),
            meanings: self.meanings@.map_values(|m: Meaning| m@),
            license: opt_license(self.license),
            source_urls: texts(self.source_urls@),
        }
    }
}

impl Clone for DictionaryEntry {
    fn clone(&self) -> (r: Self)
        ensures
            r@ == self@,
    {
        DictionaryEntry {
            word: self.word.clone(),
            phonetic: clone_opt_text(&self.phonetic),
            phonetics: clone_phonetics(&self.phonetics),
            meanings: clone_meanings(&self.meanings),
            license: clone_opt_license(&self.license),
            source_urls: clone_texts(&self.source_urls),
        }
    }
}

/// The views of a list of entries.
pub open spec fn entry_views(v: Seq<DictionaryEntry>) -> Seq<EntryView> {
    v.map_values(|e: DictionaryEntry| e@)
}

/// Why a query has no result.
#[derive(Debug, PartialEq, Eq)]
pub enum LookupError {
    /// The query is blank once surrounding whitespace is removed.
    EmptyQuery,
    /// No headword equals or begins with the trimmed query, which is kept here.
    NotFound(String),
}

/// The text that tells a user why a query has no result.
pub open spec fn error_text(e: LookupError) -> Seq<char> {
    match e {
        LookupError::EmptyQuery => "Please enter a word to look up."@,
        LookupError::NotFound(t) => "No offline entry found for '"@ + t@ + "'."@,
    }
}

impl LookupError {
    /// The text that tells a user why the query has no result.
    pub fn message(&self) -> (r: String)
        ensures
            r@ == error_text(*self),
    {
        let mut s = String::new();
        match self {
            LookupError::EmptyQuery => push_text(&mut s, "Please enter a word to look up."),
            LookupError::NotFound(t) => {
                push_text(&mut s, "No offline entry found for '");
                push_text(&mut s, t.as_str());
                push_text(&mut s, "'.");
            },
        }
        s
    }
}

/// What a lookup of `query` shows: the rendered entries, or the reason for
/// their absence after `Error: `.
pub open spec fn lookup_display(store: Seq<EntryView>, query: Seq<char>) -> Seq<char> {
    let t = trimmed(query);
    if t.len() == 0 {
        "Error: "@ + error_text(LookupError::EmptyQuery)
    } else if resolved(store, t).len() == 0 {
        "Error: "@ + "No offline entry found for '"@ + t + "'."@
    } else {
        formatted(resolved(store, t))
    }
}

/// Resolves queries against an immutable store of entries and renders the
/// entries found.
pub struct DictionaryClient {
    entries: Vec<DictionaryEntry>,
}

impl Clone for DictionaryClient {
    fn clone(&self) -> (r: Self)
        ensures
            r.store() == self.store(),
    {
        let entries = self.entries.clone();
        assert(entry_views(entries@) =~= entry_views(self.entries@));
        DictionaryClient { entries }
    }
}

impl DictionaryClient {
    /// The entries of the store, in store order.
    pub closed spec fn store(&self) -> Seq<EntryView> {
        entry_views(self.entries@)
    }

    /// A client over an empty store.
    pub fn new() -> (r: Self)
        ensures
            r.store().len() == 0,
    {
        let r = DictionaryClient { entries: Vec::new() };
        assert(r.store() =~= Seq::<EntryView>::empty());
        r
    }

    /// A client over `entries`, kept in the order given.
    pub fn from_entries(entries: Vec<DictionaryEntry>) -> (r: Self)
        ensures
            r.store() == entry_views(entries@),
    {
        DictionaryClient { entries }
    }

    /// The number of entries in the store.
    pub fn len(&self) -> (r: usize)
        ensures
            r == self.store().len(),
    {
        self.entries.len()
    }

    /// Resolves `word`: surrounding whitespace is removed; then the entries
    /// whose headword equals the term are returned, or, where there are none,
    /// those whose headword begins with it, in store order, with ASCII letter
    /// case ignored throughout.
    pub fn lookup(&self, word: &str) -> (r: Result<Vec<DictionaryEntry>, LookupError>)
        ensures
            match r {
                Ok(v) => {
                    &&& trimmed(word@).len() > 0
                    &&& resolved(self.store(), trimmed(word@)).len() > 0
                    &&& entry_views(v@) == resolved(self.store(), trimmed(word@))
                },
                Err(LookupError::EmptyQuery) => trimmed(word@).len() == 0,
                Err(LookupError::NotFound(t)) => {
                    &&& trimmed(word@).len() > 0
                    &&& resolved(self.store(), trimmed(word@)).len() == 0
                    &&& t@ == trimmed(word@)
                },
            },
    {
        let term = trim(word);
        if term.as_str().is_empty() {
            return Err(LookupError::EmptyQuery);
        }
        let t = chars_of(term.as_str());
        let exact = collect_matches(&self.entries, &t, false);
        let found = if exact.len() > 0 {
            exact
        } else {
            collect_matches(&self.entries, &t, true)
        };
        if found.len() == 0 {
            return Err(LookupError::NotFound(term));
        }
        Ok(found)
    }

    /// Renders `entries` as display text; see `formatted`.
    pub fn format_entry(&self, entries: &[DictionaryEntry]) -> (r: String)
        ensures
            r@ == formatted(entry_views(entries@)),
    {
        let mut s = String::new();
        if entries.len() == 0 {
            push_text(&mut s, "No definitions found.");
            return s;
        }
        push_entries(&mut s, entries);
        s
    }

    /// What a lookup of `word` shows: the rendered entries, or the reason for
    /// their absence after `Error: `.
    pub fn lookup_text(&self, word: &str) -> (r: String)
        ensures
            r@ == lookup_display(self.store(), word@),
    {
        match self.lookup(word) {
            Ok(entries) => self.format_entry(entries.as_slice()),
            Err(e) => {
                let mut s = String::new();
                push_text(&mut s, "Error: ");
                let m = e.message();
                push_text(&mut s, m.as_str());
                s
            },
        }
    }
}

} // verus!
