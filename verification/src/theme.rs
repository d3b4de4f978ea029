//! The light and dark preference. A missing preference means System.

use crate::protocol::Text;
use crate::text::{chars_of, is_space, is_white, lowercase, lowercase_chars};
use vstd::prelude::*;
use vstd::string::*;

verus! {

/// The user's override for light or dark.
#[derive(Debug, Clone, Copy, PartialEq, Eq, Structural)]
pub enum ThemeMode {
    System,
    Light,
    Dark,
}

impl Default for ThemeMode {
    fn default() -> (r: Self)
        ensures
            r == ThemeMode::System,
    {
        ThemeMode::System
    }
}

/// The word for a mode in the settings file.
pub open spec fn mode_name(mode: ThemeMode) -> Text {
    match mode {
        ThemeMode::System => "system"@,
        ThemeMode::Light => "light"@,
        ThemeMode::Dark => "dark"@,
    }
}

/// A quote mark or white space: what may stand around a settings value.
pub open spec fn is_wrapping(c: char) -> bool {
    c == '"' || is_space(c)
}

/// `s` without its leading quote marks and white space.
pub open spec fn bare_start(s: Text) -> Text
    decreases s.len(),
{
    if s.len() > 0 && is_wrapping(s.first()) {
        bare_start(s.drop_first())
    } else {
        s
    }
}

/// `s` without its trailing quote marks and white space.
pub open spec fn bare_end(s: Text) -> Text
    decreases s.len(),
{
    if s.len() > 0 && is_wrapping(s.last()) {
        bare_end(s.drop_last())
    } else {
        s
    }
}

/// `s` without the quote marks and the white space at both ends.
pub open spec fn bare(s: Text) -> Text {
    bare_end(bare_start(s))
}

/// The mode that a settings value names. Quotes, spaces, and case are ignored.
pub open spec fn mode_of(raw: Text) -> Option<ThemeMode> {
    let word = lowercase(bare(raw));
    if word == "system"@ {
        Some(ThemeMode::System)
    } else if word == "light"@ {
        Some(ThemeMode::Light)
    } else if word == "dark"@ {
        Some(ThemeMode::Dark)
    } else {
        None
    }
}

fn wraps(c: char) -> (r: bool)
    ensures
        r == is_wrapping(c),
{
    c == '"' || is_white(c)
}

/// `s` without the quote marks and the white space at both ends.
fn stripped(s: &str) -> (r: &str)
    ensures
        r@ == bare(s@),
{
    let chars = chars_of(s);
    let mut from: usize = 0;
    assert(s@.skip(0) =~= s@);
    while from < chars.len() && wraps(chars[from])
        invariant
            from <= chars.len(),
            chars@ == s@,
            bare_start(s@) == bare_start(s@.skip(from as int)),
        decreases chars.len() - from,
    {
        proof {
            let rest = s@.skip(from as int);
            assert(rest.first() == s@[from as int]);
            assert(rest.drop_first() =~= s@.skip(from + 1));
        }
        from = from + 1;
    }
    proof {
        let rest = s@.skip(from as int);
        assert(rest.len() > 0 ==> rest.first() == s@[from as int]);
        assert(s@.subrange(from as int, s@.len() as int) =~= rest);
    }
    let mut to: usize = chars.len();
    while from < to && wraps(chars[to - 1])
        invariant
            from <= to <= chars.len(),
            chars@ == s@,
            bare_end(bare_start(s@)) == bare_end(
                s@.subrange(from as int, to as int),
            ),
        decreases to - from,
    {
        proof {
            let rest = s@.subrange(from as int, to as int);
            assert(rest.last() == s@[to - 1]);
            assert(rest.drop_last() =~= s@.subrange(from as int, to - 1));
        }
        to = to - 1;
    }
    proof {
        let rest = s@.subrange(from as int, to as int);
        assert(rest.len() > 0 ==> rest.last() == s@[to - 1]);
    }
    s.substring_char(from, to)
}

/// The characters spell this word.
fn spells(chars: &Vec<char>, word: &str) -> (r: bool)
    ensures
        r == (chars@ == word@),
{
    let other = chars_of(word);
    if chars.len() != other.len() {
        return false;
    }
    let mut i: usize = 0;
    while i < chars.len()
        invariant
            i <= chars.len(),
            chars.len() == other.len(),
            other@ == word@,
            forall|j: int| 0 <= j < i ==> chars@[j] == other@[j],
        decreases chars.len() - i,
    {
        if chars[i] != other[i] {
            return false;
        }
        i = i + 1;
    }
    assert(chars@ =~= word@);
    true
}

impl ThemeMode {
    /// Every mode in picker order.
    pub const ALL: [ThemeMode; 3] = [ThemeMode::System, ThemeMode::Light, ThemeMode::Dark];

    /// The value in the settings file.
    pub fn as_str(self) -> (r: &'static str)
        ensures
            r@ == mode_name(self),
    {
        match self {
            ThemeMode::System => "system",
            ThemeMode::Light => "light",
            ThemeMode::Dark => "dark",
        }
    }

    /// Read a settings value. Quotes, spaces, and case are ignored.
    pub fn parse(raw: &str) -> (r: Option<ThemeMode>)
        ensures
            r == mode_of(raw@),
    {
        let word = lowercase_chars(stripped(raw));
        if spells(&word, "system") {
            Some(ThemeMode::System)
        } else if spells(&word, "light") {
            Some(ThemeMode::Light)
        } else if spells(&word, "dark") {
            Some(ThemeMode::Dark)
        } else {
            None
        }
    }
}

/// The word of a mode reads back as that mode, and as no other.
pub proof fn law_mode_round_trip(mode: ThemeMode)
    ensures
        mode_of(mode_name(mode)) == Some(mode),
{
    reveal_strlit("system");
    reveal_strlit("light");
    reveal_strlit("dark");
    let word = mode_name(mode);
    assert(lowercase(word) =~= word);
}

/// What is left of a settings value has no quote mark and no white space at its
/// ends, and what was dropped is nothing else.
pub proof fn law_bare_drops_only_the_ends(s: Text)
    ensures
        bare(s).len() > 0 ==> !is_wrapping(bare(s).first()) && !is_wrapping(bare(s).last()),
        exists|from: int, to: int| #[trigger] bare_between(s, from, to),
{
    lemma_bare_start(s);
    let rest = bare_start(s);
    lemma_bare_end(rest);
    let from = s.len() - rest.len();
    let to = from + bare(s).len();
    assert(bare_between(s, from, to)) by {
        assert(s.subrange(from, to) =~= rest.take(bare(s).len() as int));
        assert forall|i: int| to <= i < s.len() implies is_wrapping(#[trigger] s[i]) by {
            assert(s[i] == rest[i - from]);
        }
    }
    if bare(s).len() > 0 {
        assert(bare(s).first() == rest[0]);
    }
}

/// The value stands between these places, with only quote marks and white space
/// around it.
pub open spec fn bare_between(s: Text, from: int, to: int) -> bool {
    &&& 0 <= from <= to <= s.len()
    &&& bare(s) == s.subrange(from, to)
    &&& forall|i: int| 0 <= i < from ==> is_wrapping(#[trigger] s[i])
    &&& forall|i: int| to <= i < s.len() ==> is_wrapping(#[trigger] s[i])
}

proof fn lemma_bare_start(s: Text)
    ensures
        bare_start(s).len() <= s.len(),
        bare_start(s) == s.skip(s.len() - bare_start(s).len()),
        bare_start(s).len() > 0 ==> !is_wrapping(bare_start(s).first()),
        forall|i: int| 0 <= i < s.len() - bare_start(s).len() ==> is_wrapping(#[trigger] s[i]),
    decreases s.len(),
{
    if s.len() > 0 && is_wrapping(s.first()) {
        let next = s.drop_first();
        lemma_bare_start(next);
        assert(bare_start(s) =~= s.skip(s.len() - bare_start(s).len()));
        assert forall|i: int| 0 <= i < s.len() - bare_start(s).len() implies is_wrapping(
            #[trigger] s[i],
        ) by {
            if i > 0 {
                assert(s[i] == next[i - 1]);
            }
        }
    } else {
        assert(s.skip(0) =~= s);
    }
}

proof fn lemma_bare_end(s: Text)
    ensures
        bare_end(s).len() <= s.len(),
        bare_end(s) == s.take(bare_end(s).len() as int),
        bare_end(s).len() > 0 ==> !is_wrapping(bare_end(s).last()),
        forall|i: int| bare_end(s).len() <= i < s.len() ==> is_wrapping(#[trigger] s[i]),
    decreases s.len(),
{
    if s.len() > 0 && is_wrapping(s.last()) {
        let next = s.drop_last();
        lemma_bare_end(next);
        assert(bare_end(s) =~= s.take(bare_end(s).len() as int));
        assert forall|i: int| bare_end(s).len() <= i < s.len() implies is_wrapping(
            #[trigger] s[i],
        ) by {
            if i < s.len() - 1 {
                assert(s[i] == next[i]);
            }
        }
    } else {
        assert(s.take(s.len() as int) =~= s);
    }
}

/// A value names a mode exactly when what is left of it spells the word of that
/// mode, in capitals or not.
pub proof fn law_value_names_the_mode_it_spells(raw: Text, mode: ThemeMode)
    ensures
        (mode_of(raw) == Some(mode)) == (lowercase(bare(raw)) == mode_name(mode)),
        is_wrapping('"') && is_wrapping(' ') && !is_wrapping('d'),
{
    reveal_strlit("system");
    reveal_strlit("light");
    reveal_strlit("dark");
    law_mode_names_differ();
}

proof fn law_mode_names_differ()
    ensures
        mode_name(ThemeMode::System) != mode_name(ThemeMode::Light),
        mode_name(ThemeMode::System) != mode_name(ThemeMode::Dark),
        mode_name(ThemeMode::Light) != mode_name(ThemeMode::Dark),
{
    reveal_strlit("system");
    reveal_strlit("light");
    reveal_strlit("dark");
    assert("system"@[0] == 's' && "light"@[0] == 'l' && "dark"@[0] == 'd');
}

/// Only a quote mark and white space may stand around a value: no other
/// character is dropped.
pub proof fn law_only_quotes_and_spaces_wrap(c: char)
    ensures
        is_wrapping(c) <==> c == '"' || is_space(c),
{
}

} // verus!
