use vstd::prelude::*;

use crate::chord::{key_name_of, parse_key_name, parse_u32, resolve_code, resolve_spec, u32_of};
use crate::document::{
    Ast,
    ChordInfo, ChordInfoMeta, ChordInfoV, ChordOrUnidentified, ChordOrUnidentifiedV, Section,
    SectionMeta, SectionMetaV, SectionV,
};
use crate::errors::ParseError;
use crate::lexer::{Token, TokenV};

verus! {

pub open spec fn section_word() -> Seq<char> {
    seq!['s', 'e', 'c', 't', 'i', 'o', 'n']
}

pub open spec fn repeat_word() -> Seq<char> {
    seq!['r', 'e', 'p', 'e', 'a', 't']
}

pub open spec fn key_word() -> Seq<char> {
    seq!['k', 'e', 'y']
}

/// The section metadata that the key `k` with value `v` stands for.
pub open spec fn section_meta_of(k: Seq<char>, v: Seq<char>) -> Result<SectionMetaV, ParseError> {
    if k == section_word() {
        Ok(SectionMetaV::Section(v))
    } else if k == repeat_word() {
        match u32_of(v) {
            Some(n) => Ok(SectionMetaV::Repeat(n)),
            None => Err(ParseError::RepeatValueNotNumeric),
        }
    } else {
        Err(ParseError::UnknownSectionMetaKey)
    }
}

/// The chord entry metadata that the key `k` with value `v` stands for.
pub open spec fn chord_meta_of(k: Seq<char>, v: Seq<char>) -> Result<ChordInfoMeta, ParseError> {
    if k != key_word() {
        Err(ParseError::UnknownMetaKey)
    } else {
        match key_name_of(v) {
            Some(kn) => Ok(ChordInfoMeta::Key { value: kn }),
            None => Err(ParseError::InvalidKeyName),
        }
    }
}

/// Where the parser stands between two tokens.
pub struct ParseState {
    /// The sections so far; the last one is the one being filled.
    pub sections: Seq<SectionV>,
    /// Whether a `|` has opened a chord block on the current line.
    pub open: bool,
    /// The finished entries of the open chord block.
    pub block: Seq<ChordInfoV>,
    /// The metadata of the entry being built.
    pub metas: Seq<ChordInfoMeta>,
    /// The chord and denominator of the entry being built, once its code is read.
    pub chord: Option<(ChordOrUnidentifiedV, Option<Seq<char>>)>,
}

pub open spec fn initial_state() -> ParseState {
    ParseState { sections: seq![], open: false, block: seq![], metas: seq![], chord: None }
}

pub open spec fn empty_section() -> SectionV {
    SectionV { meta_infos: seq![], chord_blocks: seq![] }
}

/// `secs` with the block `b` added to the last section (to a new one if there is none).
pub open spec fn add_block(secs: Seq<SectionV>, b: Seq<ChordInfoV>) -> Seq<SectionV> {
    if secs.len() == 0 {
        seq![SectionV { meta_infos: seq![], chord_blocks: seq![b] }]
    } else {
        let last = secs.last();
        secs.update(
            secs.len() - 1,
            SectionV { meta_infos: last.meta_infos, chord_blocks: last.chord_blocks.push(b) },
        )
    }
}

/// `secs` with `m` added: to the last section while it has no chord block, else to a new one.
pub open spec fn add_section_meta(secs: Seq<SectionV>, m: SectionMetaV) -> Seq<SectionV> {
    if secs.len() > 0 && secs.last().chord_blocks.len() == 0 {
        let last = secs.last();
        secs.update(
            secs.len() - 1,
            SectionV { meta_infos: last.meta_infos.push(m), chord_blocks: last.chord_blocks },
        )
    } else {
        secs.push(SectionV { meta_infos: seq![m], chord_blocks: seq![] })
    }
}

pub open spec fn entry_pending(st: ParseState) -> bool {
    st.metas.len() > 0 || st.chord is Some
}

pub open spec fn block_pending(st: ParseState) -> bool {
    st.block.len() > 0 || entry_pending(st)
}

/// Ends the entry being built; it must have its code.
pub open spec fn close_entry(st: ParseState) -> Result<ParseState, ParseError> {
    match st.chord {
        None => Err(ParseError::EmptyChord),
        Some((c, d)) => Ok(
            ParseState {
                block: st.block.push(ChordInfoV { meta_infos: st.metas, chord: c, denominator: d }),
                metas: seq![],
                chord: None,
                ..st
            },
        ),
    }
}

/// Ends the open chord block and adds it to the last section.
pub open spec fn close_block(st: ParseState) -> Result<ParseState, ParseError> {
    match close_entry(st) {
        Err(e) => Err(e),
        Ok(s) => Ok(ParseState { sections: add_block(s.sections, s.block), block: seq![], ..s }),
    }
}

/// Ends the current line: a block with content still open is closed.
pub open spec fn close_line(st: ParseState) -> Result<ParseState, ParseError> {
    if block_pending(st) {
        match close_block(st) {
            Err(e) => Err(e),
            Ok(s) => Ok(ParseState { open: false, ..s }),
        }
    } else {
        Ok(ParseState { open: false, ..st })
    }
}

pub open spec fn tok(toks: Seq<TokenV>, j: int) -> Option<TokenV> {
    if 0 <= j < toks.len() {
        Some(toks[j])
    } else {
        None
    }
}

/// `@ key = value LineBreak` at position `i`, after the state `st` (the line already closed).
pub open spec fn section_meta_step(toks: Seq<TokenV>, i: int, st: ParseState) -> Result<(int, ParseState), ParseError> {
    match tok(toks, i + 1) {
        Some(TokenV::SectionMetaKey(k)) => if tok(toks, i + 2) != Some(TokenV::Equal) {
            Err(ParseError::SectionMetaKeyNeedsEqual)
        } else {
            match tok(toks, i + 3) {
                Some(TokenV::SectionMetaValue(v)) => match section_meta_of(k, v) {
                    Err(e) => Err(e),
                    Ok(m) => if tok(toks, i + 4) != Some(TokenV::LineBreak) {
                        Err(ParseError::SectionMetaValueNeedsLineBreak)
                    } else {
                        Ok((i + 5, ParseState { sections: add_section_meta(st.sections, m), ..st }))
                    },
                },
                _ => Err(ParseError::EmptySectionMetaValue),
            }
        },
        _ => Err(ParseError::EmptySectionMetaKey),
    }
}

/// `( key = value )` at position `i`.
pub open spec fn meta_step(toks: Seq<TokenV>, i: int, st: ParseState) -> Result<(int, ParseState), ParseError> {
    match tok(toks, i + 1) {
        Some(TokenV::MetaKey(k)) => if tok(toks, i + 2) != Some(TokenV::Equal) {
            Err(ParseError::MetaKeyNeedsEqual)
        } else {
            match tok(toks, i + 3) {
                Some(TokenV::MetaValue(v)) => match chord_meta_of(k, v) {
                    Err(e) => Err(e),
                    Ok(m) => if tok(toks, i + 4) != Some(TokenV::MetaEnd) {
                        Err(ParseError::MetaValueNeedsClose)
                    } else {
                        Ok((i + 5, ParseState { metas: st.metas.push(m), ..st }))
                    },
                },
                _ => Err(ParseError::EmptyMetaValue),
            }
        },
        _ => Err(ParseError::EmptyMetaKey),
    }
}

/// One construct starting at position `i`: where the next one starts, and the new state.
pub open spec fn step(toks: Seq<TokenV>, i: int, st: ParseState) -> Result<(int, ParseState), ParseError> {
    match toks[i] {
        TokenV::SectionMetaStart => match close_line(st) {
            Err(e) => Err(e),
            Ok(s) => section_meta_step(toks, i, s),
        },
        TokenV::MetaStart => if !st.open || st.chord is Some {
            Err(ParseError::InvalidToken)
        } else {
            meta_step(toks, i, st)
        },
        TokenV::BlockSeparator => if !st.open {
            Ok(
                (
                    i + 1,
                    ParseState {
                        open: true,
                        sections: if st.sections.len() == 0 {
                            seq![empty_section()]
                        } else {
                            st.sections
                        },
                        ..st
                    },
                ),
            )
        } else if !block_pending(st) {
            Err(ParseError::EmptyChordBlock)
        } else {
            match close_block(st) {
                Err(e) => Err(e),
                Ok(s) => Ok((i + 1, s)),
            }
        },
        TokenV::Code(t) => if !st.open || st.chord is Some {
            Err(ParseError::InvalidToken)
        } else {
            match resolve_spec(t) {
                Err(e) => Err(e),
                Ok(p) => Ok((i + 1, ParseState { chord: Some(p), ..st })),
            }
        },
        TokenV::Comma => if !st.open {
            Err(ParseError::InvalidToken)
        } else {
            match close_entry(st) {
                Err(e) => Err(e),
                Ok(s) => Ok((i + 1, s)),
            }
        },
        TokenV::LineBreak => match close_line(st) {
            Err(e) => Err(e),
            Ok(s) => Ok((i + 1, s)),
        },
        TokenV::Equal => Ok((i + 1, st)),
        _ => Err(ParseError::InvalidToken),
    }
}

/// The state after the tokens from position `i` on, starting in `st`.
pub open spec fn run(toks: Seq<TokenV>, i: int, st: ParseState) -> Result<ParseState, ParseError>
    decreases toks.len() - i,
{
    if i < 0 || i >= toks.len() {
        Ok(st)
    } else {
        match step(toks, i, st) {
            Err(e) => Err(e),
            Ok((j, s)) => if j > i {
                run(toks, j, s)
            } else {
                Ok(s)
            },
        }
    }
}

/// The document that the tokens `toks` stand for, or the first error in them.
pub open spec fn parse_spec(toks: Seq<TokenV>) -> Result<Seq<SectionV>, ParseError> {
    match run(toks, 0, initial_state()) {
        Err(e) => Err(e),
        Ok(st) => match close_line(st) {
            Err(e) => Err(e),
            Ok(s) => Ok(s.sections),
        },
    }
}

/// The value of what `parse` returns.
pub open spec fn parse_result_view(r: Result<Ast, ParseError>) -> Result<Seq<SectionV>, ParseError> {
    match r {
        Ok(sections) => Ok(sections.deep_view()),
        Err(e) => Err(e),
    }
}

fn push_deep<T: DeepView>(v: &mut Vec<T>, x: T)
    ensures
        final(v).deep_view() == old(v).deep_view().push(x.deep_view()),
{
    v.push(x);
    assert(final(v).deep_view() =~= old(v).deep_view().push(x.deep_view()));
}

fn text_eq(a: &str, b: &str) -> (r: bool)
    ensures
        r == (a@ == b@),
{
    let n = a.unicode_len();
    if n != b.unicode_len() {
        return false;
    }
    let mut j: usize = 0;
    while j < n
        invariant
            n == a@.len(),
            n == b@.len(),
            j <= n,
            forall|m: int| 0 <= m < j ==> a@[m] == b@[m],
        decreases n - j,
    {
        if a.get_char(j) != b.get_char(j) {
            return false;
        }
        j = j + 1;
    }
    assert(a@ =~= b@);
    true
}

fn section_meta_from(k: &String, v: &String) -> (r: Result<SectionMeta, ParseError>)
    ensures
        match r {
            Ok(m) => section_meta_of(k@, v@) == Ok::<SectionMetaV, ParseError>(m.deep_view()),
            Err(e) => section_meta_of(k@, v@) == Err::<SectionMetaV, ParseError>(e),
        },
{
    proof {
        reveal_strlit("section");
        reveal_strlit("repeat");
        assert("section"@ =~= section_word());
        assert("repeat"@ =~= repeat_word());
    }
    if text_eq(k.as_str(), "section") {
        Ok(SectionMeta::Section { value: v.clone() })
    } else if text_eq(k.as_str(), "repeat") {
        match parse_u32(v.as_str()) {
            Some(n) => Ok(SectionMeta::Repeat { value: n }),
            None => Err(ParseError::RepeatValueNotNumeric),
        }
    } else {
        Err(ParseError::UnknownSectionMetaKey)
    }
}

fn chord_meta_from(k: &String, v: &String) -> (r: Result<ChordInfoMeta, ParseError>)
    ensures
        match r {
            Ok(m) => chord_meta_of(k@, v@) == Ok::<ChordInfoMeta, ParseError>(m),
            Err(e) => chord_meta_of(k@, v@) == Err::<ChordInfoMeta, ParseError>(e),
        },
{
    proof {
        reveal_strlit("key");
        assert("key"@ =~= key_word());
    }
    if !text_eq(k.as_str(), "key") {
        return Err(ParseError::UnknownMetaKey);
    }
    match parse_key_name(v.as_str()) {
        Some(kn) => Ok(ChordInfoMeta::Key { value: kn }),
        None => Err(ParseError::InvalidKeyName),
    }
}

pub open spec fn pending_view(p: Option<(ChordOrUnidentified, Option<String>)>) -> Option<(ChordOrUnidentifiedV, Option<Seq<char>>)> {
    match p {
        None => None,
        Some((c, d)) => Some(
            (
                c.deep_view(),
                match d {
                    Some(d) => Some(d@),
                    None => None,
                },
            ),
        ),
    }
}

/// The document under construction; `state` is its `ParseState`.
struct Builder {
    sections: Vec<Section>,
    open: bool,
    block: Vec<ChordInfo>,
    metas: Vec<ChordInfoMeta>,
    chord: Option<(ChordOrUnidentified, Option<String>)>,
}

impl Builder {
    spec fn state(&self) -> ParseState {
        ParseState {
            sections: self.sections.deep_view(),
            open: self.open,
            block: self.block.deep_view(),
            metas: self.metas@,
            chord: pending_view(self.chord),
        }
    }

    fn new() -> (b: Builder)
        ensures
            b.state() == initial_state(),
    {
        let b = Builder {
            sections: Vec::new(),
            open: false,
            block: Vec::new(),
            metas: Vec::new(),
            chord: None,
        };
        assert(b.state().sections =~= initial_state().sections);
        assert(b.state().block =~= initial_state().block);
        assert(b.state().metas =~= initial_state().metas);
        b
    }

    fn close_entry(&mut self) -> (r: Result<(), ParseError>)
        ensures
            match r {
                Ok(_) => close_entry(old(self).state()) == Ok::<ParseState, ParseError>(final(self).state()),
                Err(e) => close_entry(old(self).state()) == Err::<ParseState, ParseError>(e),
            },
    {
        match self.chord.take() {
            None => Err(ParseError::EmptyChord),
            Some((chord, denominator)) => {
                let mut meta_infos: Vec<ChordInfoMeta> = Vec::new();
                std::mem::swap(&mut meta_infos, &mut self.metas);
                push_deep(&mut self.block, ChordInfo { meta_infos, chord, denominator });
                assert(self.metas@ =~= Seq::<ChordInfoMeta>::empty());
                Ok(())
            },
        }
    }

    fn add_block(&mut self, b: Vec<ChordInfo>)
        ensures
            final(self).state() == (ParseState {
                sections: add_block(old(self).state().sections, b.deep_view()),
                ..old(self).state()
            }),
    {
        let ghost secs = self.sections.deep_view();
        match self.sections.pop() {
            None => {
                let mut chord_blocks: Vec<Vec<ChordInfo>> = Vec::new();
                push_deep(&mut chord_blocks, b);
                let sec = Section { meta_infos: Vec::new(), chord_blocks };
                assert(sec.chord_blocks.deep_view() =~= seq![b.deep_view()]);
                assert(sec.meta_infos.deep_view() =~= Seq::<SectionMetaV>::empty());
                push_deep(&mut self.sections, sec);
                assert(self.sections.deep_view() =~~= add_block(secs, b.deep_view()));
            },
            Some(last) => {
                assert(self.sections.deep_view() =~= secs.drop_last());
                let mut last = last;
                push_deep(&mut last.chord_blocks, b);
                push_deep(&mut self.sections, last);
                assert(self.sections.deep_view() =~~= add_block(secs, b.deep_view()));
            },
        }
    }

    fn add_section_meta(&mut self, m: SectionMeta)
        ensures
            final(self).state() == (ParseState {
                sections: add_section_meta(old(self).state().sections, m.deep_view()),
                ..old(self).state()
            }),
    {
        let ghost secs = self.sections.deep_view();
        match self.sections.pop() {
            None => {
                let mut meta_infos: Vec<SectionMeta> = Vec::new();
                push_deep(&mut meta_infos, m);
                let sec = Section { meta_infos, chord_blocks: Vec::new() };
                assert(sec.meta_infos.deep_view() =~= seq![m.deep_view()]);
                assert(sec.chord_blocks.deep_view() =~= Seq::<Seq<ChordInfoV>>::empty());
                push_deep(&mut self.sections, sec);
                assert(self.sections.deep_view() =~~= add_section_meta(secs, m.deep_view()));
            },
            Some(last) => {
                assert(self.sections.deep_view() =~= secs.drop_last());
                let mut last = last;
                if last.chord_blocks.len() == 0 {
                    push_deep(&mut last.meta_infos, m);
                    push_deep(&mut self.sections, last);
                } else {
                    push_deep(&mut self.sections, last);
                    let mut meta_infos: Vec<SectionMeta> = Vec::new();
                    push_deep(&mut meta_infos, m);
                    let sec = Section { meta_infos, chord_blocks: Vec::new() };
                assert(sec.meta_infos.deep_view() =~= seq![m.deep_view()]);
                    assert(sec.meta_infos.deep_view() =~= seq![m.deep_view()]);
                    assert(sec.chord_blocks.deep_view() =~= Seq::<Seq<ChordInfoV>>::empty());
                    push_deep(&mut self.sections, sec);
                }
                assert(self.sections.deep_view() =~~= add_section_meta(secs, m.deep_view()));
            },
        }
    }

    fn close_block(&mut self) -> (r: Result<(), ParseError>)
        ensures
            match r {
                Ok(_) => close_block(old(self).state()) == Ok::<ParseState, ParseError>(final(self).state()),
                Err(e) => close_block(old(self).state()) == Err::<ParseState, ParseError>(e),
            },
    {
        match self.close_entry() {
            Err(e) => Err(e),
            Ok(_) => {
                let mut b: Vec<ChordInfo> = Vec::new();
                std::mem::swap(&mut b, &mut self.block);
                self.add_block(b);
                assert(self.block.deep_view() =~= Seq::<ChordInfoV>::empty());
                Ok(())
            },
        }
    }

    fn is_block_pending(&self) -> (r: bool)
        ensures
            r == block_pending(self.state()),
    {
        self.block.len() > 0 || self.metas.len() > 0 || self.chord.is_some()
    }

    fn close_line(&mut self) -> (r: Result<(), ParseError>)
        ensures
            match r {
                Ok(_) => close_line(old(self).state()) == Ok::<ParseState, ParseError>(final(self).state()),
                Err(e) => close_line(old(self).state()) == Err::<ParseState, ParseError>(e),
            },
    {
        if self.is_block_pending() {
            match self.close_block() {
                Err(e) => {
                    return Err(e);
                },
                Ok(_) => {},
            }
        }
        self.open = false;
        Ok(())
    }

    fn section_meta_step(&mut self, tokens: &[Token], i: usize) -> (r: Result<usize, ParseError>)
        requires
            i < tokens.len(),
        ensures
            match r {
                Ok(j) => section_meta_step(tokens.deep_view(), i as int, old(self).state()) == Ok::<
                    (int, ParseState),
                    ParseError,
                >((j as int, final(self).state())) && i < j <= tokens.len(),
                Err(e) => section_meta_step(tokens.deep_view(), i as int, old(self).state()) == Err::<
                    (int, ParseState),
                    ParseError,
                >(e),
            },
    {
        let n = tokens.len();
        if i + 1 >= n {
            return Err(ParseError::EmptySectionMetaKey);
        }
        let k = match &tokens[i + 1] {
            Token::SectionMetaKey(k) => k,
            _ => {
                return Err(ParseError::EmptySectionMetaKey);
            },
        };
        if i + 2 >= n || !matches!(tokens[i + 2], Token::Equal) {
            return Err(ParseError::SectionMetaKeyNeedsEqual);
        }
        if i + 3 >= n {
            return Err(ParseError::EmptySectionMetaValue);
        }
        let v = match &tokens[i + 3] {
            Token::SectionMetaValue(v) => v,
            _ => {
                return Err(ParseError::EmptySectionMetaValue);
            },
        };
        let m = match section_meta_from(k, v) {
            Ok(m) => m,
            Err(e) => {
                return Err(e);
            },
        };
        if i + 4 >= n || !matches!(tokens[i + 4], Token::LineBreak) {
            return Err(ParseError::SectionMetaValueNeedsLineBreak);
        }
        self.add_section_meta(m);
        Ok(i + 5)
    }

    fn meta_step(&mut self, tokens: &[Token], i: usize) -> (r: Result<usize, ParseError>)
        requires
            i < tokens.len(),
        ensures
            match r {
                Ok(j) => meta_step(tokens.deep_view(), i as int, old(self).state()) == Ok::<
                    (int, ParseState),
                    ParseError,
                >((j as int, final(self).state())) && i < j <= tokens.len(),
                Err(e) => meta_step(tokens.deep_view(), i as int, old(self).state()) == Err::<
                    (int, ParseState),
                    ParseError,
                >(e),
            },
    {
        let n = tokens.len();
        if i + 1 >= n {
            return Err(ParseError::EmptyMetaKey);
        }
        let k = match &tokens[i + 1] {
            Token::MetaKey(k) => k,
            _ => {
                return Err(ParseError::EmptyMetaKey);
            },
        };
        if i + 2 >= n || !matches!(tokens[i + 2], Token::Equal) {
            return Err(ParseError::MetaKeyNeedsEqual);
        }
        if i + 3 >= n {
            return Err(ParseError::EmptyMetaValue);
        }
        let v = match &tokens[i + 3] {
            Token::MetaValue(v) => v,
            _ => {
                return Err(ParseError::EmptyMetaValue);
            },
        };
        let m = match chord_meta_from(k, v) {
            Ok(m) => m,
            Err(e) => {
                return Err(e);
            },
        };
        if i + 4 >= n || !matches!(tokens[i + 4], Token::MetaEnd) {
            return Err(ParseError::MetaValueNeedsClose);
        }
        self.metas.push(m);
        Ok(i + 5)
    }

    fn step(&mut self, tokens: &[Token], i: usize) -> (r: Result<usize, ParseError>)
        requires
            i < tokens.len(),
        ensures
            match r {
                Ok(j) => step(tokens.deep_view(), i as int, old(self).state()) == Ok::<
                    (int, ParseState),
                    ParseError,
                >((j as int, final(self).state())) && i < j <= tokens.len(),
                Err(e) => step(tokens.deep_view(), i as int, old(self).state()) == Err::<
                    (int, ParseState),
                    ParseError,
                >(e),
            },
    {
        match &tokens[i] {
            Token::SectionMetaStart => {
                match self.close_line() {
                    Err(e) => Err(e),
                    Ok(_) => self.section_meta_step(tokens, i),
                }
            },
            Token::MetaStart => {
                if !self.open || self.chord.is_some() {
                    Err(ParseError::InvalidToken)
                } else {
                    self.meta_step(tokens, i)
                }
            },
            Token::BlockSeparator => {
                if !self.open {
                    self.open = true;
                    if self.sections.len() == 0 {
                        let sec = Section { meta_infos: Vec::new(), chord_blocks: Vec::new() };
                        assert(sec.deep_view().meta_infos =~= Seq::<SectionMetaV>::empty());
                        assert(sec.deep_view().chord_blocks =~= Seq::<Seq<ChordInfoV>>::empty());
                        push_deep(&mut self.sections, sec);
                        assert(self.sections.deep_view() =~~= seq![empty_section()]);
                    }
                    Ok(i + 1)
                } else if !self.is_block_pending() {
                    Err(ParseError::EmptyChordBlock)
                } else {
                    match self.close_block() {
                        Err(e) => Err(e),
                        Ok(_) => Ok(i + 1),
                    }
                }
            },
            Token::Code(t) => {
                if !self.open || self.chord.is_some() {
                    Err(ParseError::InvalidToken)
                } else {
                    match resolve_code(t.as_str()) {
                        Err(e) => Err(e),
                        Ok(p) => {
                            self.chord = Some(p);
                            Ok(i + 1)
                        },
                    }
                }
            },
            Token::Comma => {
                if !self.open {
                    Err(ParseError::InvalidToken)
                } else {
                    match self.close_entry() {
                        Err(e) => Err(e),
                        Ok(_) => Ok(i + 1),
                    }
                }
            },
            Token::LineBreak => {
                match self.close_line() {
                    Err(e) => Err(e),
                    Ok(_) => Ok(i + 1),
                }
            },
            Token::Equal => Ok(i + 1),
            _ => Err(ParseError::InvalidToken),
        }
    }
}

/// Builds the document that `tokens` stand for, failing on the first structural error.
pub fn parse(tokens: &[Token]) -> (r: Result<Ast, ParseError>)
    ensures
        parse_result_view(r) == parse_spec(tokens.deep_view()),
{
    let mut b = Builder::new();
    let n = tokens.len();
    let mut i: usize = 0;
    while i < n
        invariant
            n == tokens.len(),
            i <= n,
            run(tokens.deep_view(), 0, initial_state()) == run(tokens.deep_view(), i as int, b.state()),
        decreases n - i,
    {
        match b.step(tokens, i) {
            Err(e) => {
                return Err(e);
            },
            Ok(j) => {
                i = j;
            },
        }
    }
    match b.close_line() {
        Err(e) => Err(e),
        Ok(_) => Ok(b.sections),
    }
}

} // verus!
