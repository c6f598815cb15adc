//! The global-shortcut trigger: which word of the current selection it asks
//! the running instance to look up.

use crate::text::{chars_of, is_white_space, is_whitespace_char, string_of_range, trim, trimmed};
use vstd::prelude::*;
use vstd::utf8::{encode_scalar, encode_utf8};

verus! {

/// Whether `c` is alphabetic or numeric in the Unicode sense.
pub uninterp spec fn alphanumeric(c: char) -> bool;

/// Relies on `char::is_alphanumeric`: whether `c` is alphabetic or numeric;
/// the answer depends on `c` alone.
#[verifier::external_body]
fn is_alphanumeric(c: char) -> (r: bool)
    ensures
        r == alphanumeric(c),
{
    c.is_alphanumeric()
}

/// The characters of `s` up to its first whitespace.
pub open spec fn first_word(s: Seq<char>) -> Seq<char>
    decreases s.len(),
{
    if s.len() == 0 || is_white_space(s[0]) {
        Seq::empty()
    } else {
        seq![s[0]] + first_word(s.drop_first())
    }
}

/// How many flags at the start of `keep` are unset.
pub open spec fn leading_unset(keep: Seq<bool>) -> nat
    decreases keep.len(),
{
    if keep.len() > 0 && !keep[0] {
        1 + leading_unset(keep.drop_first())
    } else {
        0
    }
}

/// How many flags at the end of `keep` are unset.
pub open spec fn trailing_unset(keep: Seq<bool>) -> nat
    decreases keep.len(),
{
    if keep.len() > 0 && !keep.last() {
        1 + trailing_unset(keep.drop_last())
    } else {
        0
    }
}

/// `s` without the characters at either end whose flag in `keep` is unset.
pub open spec fn kept_span(s: Seq<char>, keep: Seq<bool>) -> Seq<char> {
    if leading_unset(keep) >= keep.len() {
        Seq::empty()
    } else {
        s.subrange(leading_unset(keep) as int, keep.len() - trailing_unset(keep))
    }
}

/// The alphanumeric flag of each character of `s`.
pub open spec fn alphanumeric_flags(s: Seq<char>) -> Seq<bool> {
    s.map_values(|c: char| alphanumeric(c))
}

/// The word that a selection offers: its first whitespace-separated token,
/// without the characters at either end that are not alphanumeric.
pub open spec fn selection_word(s: Seq<char>) -> Seq<char> {
    let token = first_word(trimmed(s));
    kept_span(token, alphanumeric_flags(token))
}

/// Whether a word is worth a lookup: not empty and under fifty bytes of
/// UTF-8.
pub open spec fn worth_lookup(w: Seq<char>) -> bool {
    w.len() > 0 && encode_utf8(w).len() < 50
}

proof fn lemma_utf8_len_bounds(s: Seq<char>)
    ensures
        s.len() <= encode_utf8(s).len() <= 4 * s.len(),
    decreases s.len(),
{
    if s.len() > 0 {
        lemma_utf8_len_bounds(s.drop_first());
        let n = encode_scalar(s[0] as u32).len();
        assert(1 <= n <= 4);
    }
}

/// The word of `token` without the characters at either end whose flag in
/// `alnum` is unset, where it is worth a lookup.
pub fn word_from_token(token: &str, alnum: &Vec<bool>) -> (r: Option<String>)
    requires
        alnum@.len() == token@.len(),
    ensures
        match r {
            Some(w) => w@ == kept_span(token@, alnum@) && worth_lookup(w@),
            None => !worth_lookup(kept_span(token@, alnum@)),
        },
{
    let v = chars_of(token);
    let n = v.len();
    let ghost k = alnum@;
    let mut lo: usize = 0;
    assert(k.subrange(0, n as int) =~= k);
    while lo < n && !alnum[lo]
        invariant
            v@ == token@,
            n == v.len(),
            k == alnum@,
            k.len() == n,
            lo <= n,
            leading_unset(k) == lo + leading_unset(k.subrange(lo as int, n as int)),
        decreases n - lo,
    {
        assert(k.subrange(lo as int, n as int).drop_first() =~= k.subrange(lo + 1, n as int));
        lo = lo + 1;
    }
    if lo == n {
        assert(leading_unset(k.subrange(n as int, n as int)) == 0);
        return None;
    }
    let mut hi: usize = n;
    while hi > lo + 1 && !alnum[hi - 1]
        invariant
            v@ == token@,
            n == v.len(),
            k == alnum@,
            k.len() == n,
            lo < hi <= n,
            alnum@[lo as int],
            leading_unset(k) == lo,
            trailing_unset(k) == (n - hi) + trailing_unset(k.subrange(0, hi as int)),
        decreases hi,
    {
        assert(k.subrange(0, hi as int).drop_last() =~= k.subrange(0, hi - 1));
        hi = hi - 1;
    }
    proof {
        let sub = k.subrange(0, hi as int);
        if hi == lo + 1 {
            assert(sub.last() == k[lo as int]);
        }
        assert(trailing_unset(sub) == 0);
    }
    let w = string_of_range(&v, lo, hi);
    proof {
        lemma_utf8_len_bounds(w@);
    }
    if hi - lo >= 50 {
        return None;
    }
    let size = w.as_str().len();
    if size < 50 {
        Some(w)
    } else {
        None
    }
}

/// Triggers lookups from a global keyboard shortcut.
pub struct ShortcutHandler;

impl ShortcutHandler {
    pub fn new() -> (r: Self) {
        ShortcutHandler
    }

    /// The shortcut is bound in the desktop's own settings, which point it at
    /// the trigger program; nothing is left to do here, and nothing fails.
    pub fn register_shortcut(&self, shortcut: &str) -> (r: Result<(), String>)
        ensures
            r is Ok,
    {
        Ok(())
    }

    /// Shortcuts inside the window need no setup; nothing fails.
    pub fn setup_app_shortcuts(&self) -> (r: Result<(), String>)
        ensures
            r is Ok,
    {
        Ok(())
    }

    /// The word of `selection` to look up, where it offers one worth a
    /// lookup.
    pub fn word_from_selection(&self, selection: &str) -> (r: Option<String>)
        ensures
            match r {
                Some(w) => w@ == selection_word(selection@) && worth_lookup(w@),
                None => !worth_lookup(selection_word(selection@)),
            },
    {
        let t = trim(selection);
        let token = first_token(t.as_str());
        let flags = alphanumeric_flags_of(token.as_str());
        word_from_token(token.as_str(), &flags)
    }
}

/// The characters of `s` up to its first whitespace.
fn first_token(s: &str) -> (r: String)
    ensures
        r@ == first_word(s@),
{
    let v = chars_of(s);
    let n = v.len();
    let mut end: usize = 0;
    assert(v@.subrange(0, 0) + v@.subrange(0, n as int) =~= v@);
    while end < n && !is_whitespace_char(v[end])
        invariant
            v@ == s@,
            n == v.len(),
            end <= n,
            first_word(v@) == v@.subrange(0, end as int) + first_word(
                v@.subrange(end as int, n as int),
            ),
        decreases n - end,
    {
        let ghost rest = v@.subrange(end as int, n as int);
        assert(rest.drop_first() =~= v@.subrange(end + 1, n as int));
        assert(v@.subrange(0, end + 1) =~= v@.subrange(0, end as int) + seq![rest[0]]);
        end = end + 1;
    }
    assert(first_word(v@.subrange(end as int, n as int)) =~= Seq::<char>::empty());
    assert(v@.subrange(0, end as int) + Seq::<char>::empty() =~= v@.subrange(0, end as int));
    string_of_range(&v, 0, end)
}

/// The alphanumeric flag of each character of `s`.
fn alphanumeric_flags_of(s: &str) -> (r: Vec<bool>)
    ensures
        r@ == alphanumeric_flags(s@),
{
    let v = chars_of(s);
    let mut flags: Vec<bool> = Vec::new();
    let mut i: usize = 0;
    while i < v.len()
        invariant
            i <= v.len(),
            v@ == s@,
            flags@ == alphanumeric_flags(v@).subrange(0, i as int),
        decreases v.len() - i,
    {
        flags.push(is_alphanumeric(v[i]));
        assert(flags@ =~= alphanumeric_flags(v@).subrange(0, i + 1));
        i = i + 1;
    }
    assert(flags@ =~= alphanumeric_flags(v@));
    flags
}

} // verus!
