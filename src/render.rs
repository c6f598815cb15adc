//! Rendering of entries as display text.

use crate::api::{
    texts, DefinitionView, Definition, DictionaryEntry, EntryView, Meaning, MeaningView, entry_views,
};
use crate::text::{decimal, push_char, push_decimal, push_text};
use vstd::prelude::*;
use vstd::utf8::encode_utf8;

verus! {

/// `s` with each hyphen replaced by a space.
pub open spec fn dehyphenated(s: Seq<char>) -> Seq<char> {
    s.map_values(|c: char| if c == '-' { ' ' } else { c })
}

/// The items of `v` with `sep` between each two.
pub open spec fn joined(v: Seq<Seq<char>>, sep: Seq<char>) -> Seq<char>
    decreases v.len(),
{
    if v.len() == 0 {
        Seq::empty()
    } else if v.len() == 1 {
        v[0]
    } else {
        joined(v.drop_last(), sep) + sep + v.last()
    }
}

/// The indented example line of a definition, where it has one.
pub open spec fn example_line(example: Option<Seq<char>>) -> Seq<char> {
    match example {
        Some(x) => "   Example: "@ + x + "\n"@,
        None => Seq::empty(),
    }
}

/// Definition number `n` of a meaning, with its example.
pub open spec fn definition_text(d: DefinitionView, n: nat) -> Seq<char> {
    decimal(n) + ". "@ + d.definition + "\n"@ + example_line(d.example)
}

/// The definitions of a meaning, numbered from one.
pub open spec fn definitions_text(ds: Seq<DefinitionView>) -> Seq<char>
    decreases ds.len(),
{
    if ds.len() == 0 {
        Seq::empty()
    } else {
        definitions_text(ds.drop_last()) + definition_text(ds.last(), ds.len())
    }
}

/// The synonyms line of a meaning, where it has synonyms.
pub open spec fn synonyms_line(synonyms: Seq<Seq<char>>) -> Seq<char> {
    if synonyms.len() == 0 {
        Seq::empty()
    } else {
        "   Synonyms: "@ + joined(synonyms, ", "@) + "\n"@
    }
}

/// One meaning: its part of speech with hyphens as spaces, its definitions,
/// its synonyms, then a blank line.
pub open spec fn meaning_text(m: MeaningView) -> Seq<char> {
    dehyphenated(m.part_of_speech) + "\n"@ + definitions_text(m.definitions) + synonyms_line(
        m.synonyms,
    ) + "\n"@
}

/// The meanings of an entry, in order.
pub open spec fn meanings_text(ms: Seq<MeaningView>) -> Seq<char>
    decreases ms.len(),
{
    if ms.len() == 0 {
        Seq::empty()
    } else {
        meanings_text(ms.drop_last()) + meaning_text(ms.last())
    }
}

/// The pronunciation of an entry followed by a blank line, where it has one.
pub open spec fn phonetic_lines(phonetic: Option<Seq<char>>) -> Seq<char> {
    match phonetic {
        Some(p) => p + "\n\n"@,
        None => Seq::empty(),
    }
}

/// One entry: its headword, its pronunciation, then its meanings.
pub open spec fn entry_text(e: EntryView) -> Seq<char> {
    e.word + "\n"@ + phonetic_lines(e.phonetic) + meanings_text(e.meanings)
}

/// The entries, one after the other.
pub open spec fn entries_text(es: Seq<EntryView>) -> Seq<char>
    decreases es.len(),
{
    if es.len() == 0 {
        Seq::empty()
    } else {
        entries_text(es.drop_last()) + entry_text(es.last())
    }
}

/// The display text of a list of entries; a fixed sentence where it is empty.
pub open spec fn formatted(es: Seq<EntryView>) -> Seq<char> {
    if es.len() == 0 {
        "No definitions found."@
    } else {
        entries_text(es)
    }
}

fn push_dehyphenated(s: &mut String, t: &str)
    ensures
        final(s)@ == old(s)@ + dehyphenated(t@),
{
    let ghost start = s@;
    for c in it: t.chars()
        invariant
            it.seq() == t@,
            s@ == start + dehyphenated(it.seq().subrange(0, it.index() as int)),
    {
        let d = if c == '-' {
            ' '
        } else {
            c
        };
        push_char(s, d);
        assert(dehyphenated(it.seq().subrange(0, it.index() + 1)) =~= dehyphenated(
            it.seq().subrange(0, it.index() as int),
        ).push(d));
    }
    assert(t@.subrange(0, t@.len() as int) == t@);
}

fn push_joined(s: &mut String, v: &Vec<String>, sep: &str)
    ensures
        final(s)@ == old(s)@ + joined(texts(v@), sep@),
{
    let ghost start = s@;
    let ghost tv = texts(v@);
    let mut i: usize = 0;
    while i < v.len()
        invariant
            i <= v.len(),
            tv == texts(v@),
            s@ == start + joined(tv.subrange(0, i as int), sep@),
        decreases v.len() - i,
    {
        let ghost sub = tv.subrange(0, i + 1);
        assert(sub.drop_last() =~= tv.subrange(0, i as int));
        if i > 0 {
            push_text(s, sep);
        }
        push_text(s, v[i].as_str());
        proof {
            if i == 0 {
                assert(joined(tv.subrange(0, 0), sep@) =~= Seq::<char>::empty());
            }
        }
        i = i + 1;
    }
    assert(tv.subrange(0, v.len() as int) =~= tv);
}

fn push_definition(s: &mut String, d: &Definition, n: u64)
    ensures
        final(s)@ == old(s)@ + definition_text(d@, n as nat),
{
    let ghost start = s@;
    push_decimal(s, n);
    push_text(s, ". ");
    push_text(s, d.definition.as_str());
    push_text(s, "\n");
    match &d.example {
        Some(x) => {
            push_text(s, "   Example: ");
            push_text(s, x.as_str());
            push_text(s, "\n");
        },
        None => {},
    }
    assert(s@ =~= start + definition_text(d@, n as nat));
}

fn push_definitions(s: &mut String, ds: &Vec<Definition>)
    ensures
        final(s)@ == old(s)@ + definitions_text(ds@.map_values(|d: Definition| d@)),
{
    let ghost start = s@;
    let ghost dv = ds@.map_values(|d: Definition| d@);
    let mut i: usize = 0;
    assert(dv.subrange(0, 0) =~= Seq::<DefinitionView>::empty());
    while i < ds.len()
        invariant
            i <= ds.len(),
            dv == ds@.map_values(|d: Definition| d@),
            s@ == start + definitions_text(dv.subrange(0, i as int)),
        decreases ds.len() - i,
    {
        let ghost sub = dv.subrange(0, i + 1);
        assert(sub.drop_last() =~= dv.subrange(0, i as int));
        assert(sub.last() == ds[i as int]@);
        push_definition(s, &ds[i], (i + 1) as u64);
        assert(s@ =~= start + definitions_text(sub));
        i = i + 1;
    }
    assert(dv.subrange(0, ds.len() as int) =~= dv);
}

fn push_meaning(s: &mut String, m: &Meaning)
    ensures
        final(s)@ == old(s)@ + meaning_text(m@),
{
    let ghost start = s@;
    push_dehyphenated(s, m.part_of_speech.as_str());
    push_text(s, "\n");
    push_definitions(s, &m.definitions);
    let ghost mid = s@;
    if m.synonyms.len() > 0 {
        push_text(s, "   Synonyms: ");
        push_joined(s, &m.synonyms, ", ");
        push_text(s, "\n");
    }
    assert(s@ =~= mid + synonyms_line(m@.synonyms));
    push_text(s, "\n");
    assert(s@ =~= start + meaning_text(m@));
}

fn push_entry(s: &mut String, e: &DictionaryEntry)
    ensures
        final(s)@ == old(s)@ + entry_text(e@),
{
    let ghost start = s@;
    push_text(s, e.word.as_str());
    push_text(s, "\n");
    match &e.phonetic {
        Some(p) => {
            push_text(s, p.as_str());
            push_text(s, "\n\n");
        },
        None => {},
    }
    let ghost mid = s@;
    assert(mid =~= start + e@.word + "\n"@ + phonetic_lines(e@.phonetic));
    let ghost mv = e.meanings@.map_values(|m: Meaning| m@);
    let mut i: usize = 0;
    assert(mv.subrange(0, 0) =~= Seq::<MeaningView>::empty());
    while i < e.meanings.len()
        invariant
            i <= e.meanings.len(),
            mv == e.meanings@.map_values(|m: Meaning| m@),
            s@ == mid + meanings_text(mv.subrange(0, i as int)),
        decreases e.meanings.len() - i,
    {
        let ghost sub = mv.subrange(0, i + 1);
        assert(sub.drop_last() =~= mv.subrange(0, i as int));
        assert(sub.last() == e.meanings[i as int]@);
        push_meaning(s, &e.meanings[i]);
        assert(s@ =~= mid + meanings_text(sub));
        i = i + 1;
    }
    assert(mv.subrange(0, e.meanings.len() as int) =~= mv);
    assert(s@ =~= start + entry_text(e@));
}

/// Appends the text of each entry, in order.
pub(crate) fn push_entries(s: &mut String, es: &[DictionaryEntry])
    ensures
        final(s)@ == old(s)@ + entries_text(entry_views(es@)),
{
    let ghost start = s@;
    let ghost ev = entry_views(es@);
    let mut i: usize = 0;
    assert(ev.subrange(0, 0) =~= Seq::<EntryView>::empty());
    while i < es.len()
        invariant
            i <= es.len(),
            ev == entry_views(es@),
            s@ == start + entries_text(ev.subrange(0, i as int)),
        decreases es.len() - i,
    {
        let ghost sub = ev.subrange(0, i + 1);
        assert(sub.drop_last() =~= ev.subrange(0, i as int));
        assert(sub.last() == es@[i as int]@);
        push_entry(s, &es[i]);
        assert(s@ =~= start + entries_text(sub));
        i = i + 1;
    }
    assert(ev.subrange(0, es.len() as int) =~= ev);
}

/// Rendering depends on the content of the entries alone: two lists with
/// the same content render to the same characters, hence the same UTF-8
/// bytes.
pub proof fn lemma_format_deterministic(a: Seq<DictionaryEntry>, b: Seq<DictionaryEntry>)
    requires
        entry_views(a) == entry_views(b),
    ensures
        formatted(entry_views(a)) == formatted(entry_views(b)),
        encode_utf8(formatted(entry_views(a))) == encode_utf8(formatted(entry_views(b))),
{
}

} // verus!
