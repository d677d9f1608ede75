use vstd::prelude::*;

use crate::document::{
    Accidental, Chord, ChordOrUnidentified, ChordOrUnidentifiedV, ChordV, KeyName, Note,
};
use crate::errors::ParseError;

verus! {

pub open spec fn note_of(c: char) -> Option<Note> {
    if c == 'C' {
        Some(Note::C)
    } else if c == 'D' {
        Some(Note::D)
    } else if c == 'E' {
        Some(Note::E)
    } else if c == 'F' {
        Some(Note::F)
    } else if c == 'G' {
        Some(Note::G)
    } else if c == 'A' {
        Some(Note::A)
    } else if c == 'B' {
        Some(Note::B)
    } else {
        None
    }
}

pub open spec fn accidental_of(c: char) -> Option<Accidental> {
    if c == '#' {
        Some(Accidental::Sharp)
    } else if c == 'b' {
        Some(Accidental::Flat)
    } else {
        None
    }
}

/// A key name is a note, then optionally an accidental, then optionally `m`, and nothing else.
pub open spec fn key_name_of(s: Seq<char>) -> Option<KeyName> {
    if s.len() == 0 || note_of(s[0]) is None {
        None
    } else {
        let note = note_of(s[0])->0;
        let has_acc = s.len() >= 2 && accidental_of(s[1]) is Some;
        let acc = if has_acc { accidental_of(s[1]) } else { None };
        let rest = if has_acc { s.drop_first().drop_first() } else { s.drop_first() };
        if rest.len() == 0 {
            Some(KeyName { note, accidental: acc, minor: false })
        } else if rest.len() == 1 && rest[0] == 'm' {
            Some(KeyName { note, accidental: acc, minor: true })
        } else {
            None
        }
    }
}

/// Chord text is a note, then optionally an accidental; what follows is the quality.
pub open spec fn chord_of(s: Seq<char>) -> ChordOrUnidentifiedV {
    if s.len() == 0 || note_of(s[0]) is None {
        ChordOrUnidentifiedV::Unidentified
    } else if s.len() >= 2 && accidental_of(s[1]) is Some {
        ChordOrUnidentifiedV::Chord(
            ChordV { root: note_of(s[0])->0, accidental: accidental_of(s[1]), quality: s.skip(2) },
        )
    } else {
        ChordOrUnidentifiedV::Chord(
            ChordV { root: note_of(s[0])->0, accidental: None, quality: s.skip(1) },
        )
    }
}

/// The first position at or after `j` that holds `/`, or the length of `s`.
pub open spec fn slash_at(s: Seq<char>, j: int) -> int
    decreases s.len() - j,
{
    if j >= s.len() || s[j] == '/' {
        j
    } else {
        slash_at(s, j + 1)
    }
}

/// Code text split at its only `/` into chord text and denominator.
pub open spec fn code_parts(s: Seq<char>) -> Result<(Seq<char>, Option<Seq<char>>), ParseError> {
    let p = slash_at(s, 0);
    if p >= s.len() {
        Ok((s, None))
    } else if slash_at(s, p + 1) < s.len() {
        Err(ParseError::MultipleSlashes)
    } else {
        Ok((s.take(p), Some(s.skip(p + 1))))
    }
}

/// What code text resolves to: a chord (or `Unidentified`) and an optional denominator.
pub open spec fn resolve_spec(s: Seq<char>) -> Result<(ChordOrUnidentifiedV, Option<Seq<char>>), ParseError> {
    match code_parts(s) {
        Err(e) => Err(e),
        Ok((c, d)) => Ok((chord_of(c), d)),
    }
}

pub open spec fn is_digit(c: char) -> bool {
    '0' <= c && c <= '9'
}

pub open spec fn all_digits(s: Seq<char>) -> bool {
    forall|k: int| 0 <= k < s.len() ==> is_digit(#[trigger] s[k])
}

/// The decimal value of a string of digits.
pub open spec fn digits_value(s: Seq<char>) -> nat
    decreases s.len(),
{
    if s.len() == 0 {
        0
    } else {
        digits_value(s.drop_last()) * 10 + (s.last() as nat - '0' as nat) as nat
    }
}

/// The digits of a number text: all of it, or what follows a leading `+`.
pub open spec fn number_digits(s: Seq<char>) -> Seq<char> {
    if s.len() > 0 && s[0] == '+' {
        s.drop_first()
    } else {
        s
    }
}

/// A non-negative integer that fits in 32 bits, in decimal, with an optional leading `+`.
pub open spec fn u32_of(s: Seq<char>) -> Option<u32> {
    let d = number_digits(s);
    if d.len() > 0 && all_digits(d) && digits_value(d) <= u32::MAX {
        Some(digits_value(d) as u32)
    } else {
        None
    }
}

fn note_from(c: char) -> (r: Option<Note>)
    ensures
        r == note_of(c),
{
    if c == 'C' {
        Some(Note::C)
    } else if c == 'D' {
        Some(Note::D)
    } else if c == 'E' {
        Some(Note::E)
    } else if c == 'F' {
        Some(Note::F)
    } else if c == 'G' {
        Some(Note::G)
    } else if c == 'A' {
        Some(Note::A)
    } else if c == 'B' {
        Some(Note::B)
    } else {
        None
    }
}

fn accidental_from(c: char) -> (r: Option<Accidental>)
    ensures
        r == accidental_of(c),
{
    if c == '#' {
        Some(Accidental::Sharp)
    } else if c == 'b' {
        Some(Accidental::Flat)
    } else {
        None
    }
}

/// Reads a key name such as `C`, `Eb`, `F#m`.
pub fn parse_key_name(s: &str) -> (r: Option<KeyName>)
    ensures
        r == key_name_of(s@),
{
    let n = s.unicode_len();
    if n == 0 {
        return None;
    }
    let note = match note_from(s.get_char(0)) {
        Some(note) => note,
        None => {
            return None;
        },
    };
    let mut pos: usize = 1;
    let mut accidental: Option<Accidental> = None;
    if n >= 2 {
        accidental = accidental_from(s.get_char(1));
        if accidental.is_some() {
            pos = 2;
        }
    }
    let ghost rest = s@.skip(pos as int);
    assert(rest =~= (if pos == 2 { s@.drop_first().drop_first() } else { s@.drop_first() }));
    if pos == n {
        Some(KeyName { note, accidental, minor: false })
    } else if pos + 1 == n && s.get_char(pos) == 'm' {
        Some(KeyName { note, accidental, minor: true })
    } else {
        None
    }
}

/// Reads the chord part of code text; text that does not start with a note is `Unidentified`.
pub fn parse_chord(s: &str) -> (r: ChordOrUnidentified)
    ensures
        r.deep_view() == chord_of(s@),
{
    let n = s.unicode_len();
    if n == 0 {
        return ChordOrUnidentified::Unidentified;
    }
    let root = match note_from(s.get_char(0)) {
        Some(root) => root,
        None => {
            return ChordOrUnidentified::Unidentified;
        },
    };
    if n >= 2 {
        let accidental = accidental_from(s.get_char(1));
        if accidental.is_some() {
            let quality = String::from_str(s.substring_char(2, n));
            return ChordOrUnidentified::Chord(Chord { root, accidental, quality });
        }
    }
    let quality = String::from_str(s.substring_char(1, n));
    ChordOrUnidentified::Chord(Chord { root, accidental: None, quality })
}

fn find_slash(s: &str, from: usize) -> (r: usize)
    requires
        from <= s@.len(),
    ensures
        r as int == slash_at(s@, from as int),
{
    let n = s.unicode_len();
    let mut j = from;
    while j < n
        invariant
            n == s@.len(),
            from <= j <= n,
            slash_at(s@, from as int) == slash_at(s@, j as int),
        decreases n - j,
    {
        if s.get_char(j) == '/' {
            return j;
        }
        j = j + 1;
    }
    j
}

/// Resolves code text into a chord and an optional denominator (the text after `/`).
pub fn resolve_code(s: &str) -> (r: Result<(ChordOrUnidentified, Option<String>), ParseError>)
    ensures
        match r {
            Ok((c, d)) => resolve_spec(s@) == Ok::<(ChordOrUnidentifiedV, Option<Seq<char>>), ParseError>(
                (
                    c.deep_view(),
                    match d {
                        Some(d) => Some(d@),
                        None => None,
                    },
                ),
            ),
            Err(e) => resolve_spec(s@) == Err::<(ChordOrUnidentifiedV, Option<Seq<char>>), ParseError>(e),
        },
{
    let n = s.unicode_len();
    let p = find_slash(s, 0);
    if p >= n {
        return Ok((parse_chord(s), None));
    }
    if find_slash(s, p + 1) < n {
        return Err(ParseError::MultipleSlashes);
    }
    let chord = parse_chord(s.substring_char(0, p));
    let denominator = String::from_str(s.substring_char(p + 1, n));
    Ok((chord, Some(denominator)))
}

/// Reads a `u32` written in decimal, with an optional leading `+`.
pub fn parse_u32(s: &str) -> (r: Option<u32>)
    ensures
        r == u32_of(s@),
{
    let n = s.unicode_len();
    let mut start: usize = 0;
    if n > 0 && s.get_char(0) == '+' {
        start = 1;
    }
    let ghost d = number_digits(s@);
    assert(d =~= s@.skip(start as int));
    if start == n {
        return None;
    }
    let mut value: u64 = 0;
    let mut too_big = false;
    let mut k: usize = start;
    while k < n
        invariant
            n == s@.len(),
            start <= k <= n,
            d == s@.skip(start as int),
            d == number_digits(s@),
            forall|m: int| start <= m < k ==> is_digit(#[trigger] s@[m]),
            too_big <==> digits_value(s@.subrange(start as int, k as int)) > u32::MAX,
            !too_big ==> value == digits_value(s@.subrange(start as int, k as int)),
        decreases n - k,
    {
        let c = s.get_char(k);
        if !('0' <= c && c <= '9') {
            assert(d[k - start] == c);
            assert(!is_digit(d[k - start]));
            assert(!all_digits(d));
            return None;
        }
        let ghost prev = s@.subrange(start as int, k as int);
        let ghost next = s@.subrange(start as int, k + 1);
        assert(next.drop_last() =~= prev);
        let digit = (c as u32 - '0' as u32) as u64;
        if !too_big {
            value = value * 10 + digit;
            if value > 0xffff_ffffu64 {
                too_big = true;
            }
        } else {
            assert(digits_value(next) > u32::MAX) by (nonlinear_arith)
                requires
                    digits_value(next) == digits_value(prev) * 10 + (c as nat - '0' as nat),
                    digits_value(prev) > u32::MAX,
                    '0' <= c,
            ;
        }
        k = k + 1;
    }
    assert(s@.subrange(start as int, n as int) =~= d);
    if too_big {
        None
    } else {
        Some(value as u32)
    }
}

} // verus!
