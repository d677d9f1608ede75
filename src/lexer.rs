use vstd::prelude::*;

use crate::errors::LexError;

verus! {

/// A lexical unit of the notation. Text values are kept raw.
#[derive(Debug, PartialEq, Eq, Clone)]
pub enum Token {
    Equal,
    Comma,
    LineBreak,
    /// `@`
    SectionMetaStart,
    SectionMetaKey(String),
    SectionMetaValue(String),
    /// `|`
    BlockSeparator,
    Code(String),
    /// `(`
    MetaStart,
    MetaKey(String),
    MetaValue(String),
    /// `)`
    MetaEnd,
}

/// The mathematical value of a `Token`: its text as a sequence of characters.
pub enum TokenV {
    Equal,
    Comma,
    LineBreak,
    SectionMetaStart,
    SectionMetaKey(Seq<char>),
    SectionMetaValue(Seq<char>),
    BlockSeparator,
    Code(Seq<char>),
    MetaStart,
    MetaKey(Seq<char>),
    MetaValue(Seq<char>),
    MetaEnd,
}

impl DeepView for Token {
    type V = TokenV;

    open spec fn deep_view(&self) -> TokenV {
        match self {
            Token::Equal => TokenV::Equal,
            Token::Comma => TokenV::Comma,
            Token::LineBreak => TokenV::LineBreak,
            Token::SectionMetaStart => TokenV::SectionMetaStart,
            Token::SectionMetaKey(s) => TokenV::SectionMetaKey(s@),
            Token::SectionMetaValue(s) => TokenV::SectionMetaValue(s@),
            Token::BlockSeparator => TokenV::BlockSeparator,
            Token::Code(s) => TokenV::Code(s@),
            Token::MetaStart => TokenV::MetaStart,
            Token::MetaKey(s) => TokenV::MetaKey(s@),
            Token::MetaValue(s) => TokenV::MetaValue(s@),
            Token::MetaEnd => TokenV::MetaEnd,
        }
    }
}

/// Which token a run of text becomes.
#[derive(Debug, Clone, Copy, PartialEq, Eq, Structural)]
pub enum RunKind {
    SectionMetaKey,
    SectionMetaValue,
    MetaKey,
    MetaValue,
    Code,
}

/// Characters that are skipped between tokens.
pub open spec fn is_blank(c: char) -> bool {
    c == ' ' || c == '\u{3000}' || c == '\t'
}

pub open spec fn is_line_end(c: char) -> bool {
    c == '\n' || c == '\r'
}

/// The token that a single marker character stands for.
pub open spec fn marker_token(c: char) -> Option<TokenV> {
    if c == '@' {
        Some(TokenV::SectionMetaStart)
    } else if c == '(' {
        Some(TokenV::MetaStart)
    } else if c == ')' {
        Some(TokenV::MetaEnd)
    } else if c == '|' {
        Some(TokenV::BlockSeparator)
    } else if c == '=' {
        Some(TokenV::Equal)
    } else if c == ',' {
        Some(TokenV::Comma)
    } else {
        None
    }
}

/// Characters that end a run of text (a plain space does not).
pub open spec fn ends_run(c: char) -> bool {
    is_line_end(c) || c == '@' || c == '(' || c == ')' || c == '|' || c == '=' || c == ','
        || c == '\t'
}

/// What a line break after the tokens `acc` is: an error, or `None` for a `LineBreak` token.
pub open spec fn line_break_error(acc: Seq<TokenV>) -> Option<LexError> {
    if acc.len() == 0 {
        None
    } else {
        match acc.last() {
            TokenV::SectionMetaKey(_) => Some(LexError::SectionMetaKeyLineBreak),
            TokenV::MetaKey(_) => Some(LexError::MetaKeyLineBreak),
            TokenV::MetaValue(_) => Some(LexError::MetaValueLineBreak),
            TokenV::Comma => Some(LexError::ChordBlockLineBreak),
            _ => None,
        }
    }
}

/// The kind of a run that starts after the tokens `acc`, decided by the last two of them.
pub open spec fn run_kind(acc: Seq<TokenV>) -> Result<RunKind, LexError> {
    if acc.len() == 0 {
        Ok(RunKind::Code)
    } else {
        match acc.last() {
            TokenV::SectionMetaStart => Ok(RunKind::SectionMetaKey),
            TokenV::MetaStart => Ok(RunKind::MetaKey),
            TokenV::Equal => if acc.len() >= 2 && acc[acc.len() - 2] is SectionMetaKey {
                Ok(RunKind::SectionMetaValue)
            } else if acc.len() >= 2 && acc[acc.len() - 2] is MetaKey {
                Ok(RunKind::MetaValue)
            } else {
                Err(LexError::InvalidTokenBeforeEqual)
            },
            _ => Ok(RunKind::Code),
        }
    }
}

pub open spec fn run_token(kind: RunKind, text: Seq<char>) -> TokenV {
    match kind {
        RunKind::SectionMetaKey => TokenV::SectionMetaKey(text),
        RunKind::SectionMetaValue => TokenV::SectionMetaValue(text),
        RunKind::MetaKey => TokenV::MetaKey(text),
        RunKind::MetaValue => TokenV::MetaValue(text),
        RunKind::Code => TokenV::Code(text),
    }
}

/// `acc` with the run that started at `run`'s position and ends before `i` appended.
pub open spec fn flush(s: Seq<char>, i: int, acc: Seq<TokenV>, run: Option<(RunKind, int)>) -> Seq<TokenV> {
    match run {
        None => acc,
        Some((kind, start)) => acc.push(run_token(kind, s.subrange(start, i))),
    }
}

/// The tokens of `s` from position `i` on, after the tokens `acc` and inside the run `run`.
pub open spec fn lex_from(s: Seq<char>, i: int, acc: Seq<TokenV>, run: Option<(RunKind, int)>) -> Result<Seq<TokenV>, LexError>
    decreases s.len() - i,
{
    if i >= s.len() {
        Ok(flush(s, i, acc, run))
    } else if run is Some && !ends_run(s[i]) {
        lex_from(s, i + 1, acc, run)
    } else {
        let c = s[i];
        let acc1 = flush(s, i, acc, run);
        if marker_token(c) is Some {
            lex_from(s, i + 1, acc1.push(marker_token(c)->0), None)
        } else if is_blank(c) {
            lex_from(s, i + 1, acc1, None)
        } else if is_line_end(c) {
            match line_break_error(acc1) {
                Some(e) => Err(e),
                None => lex_from(s, i + 1, acc1.push(TokenV::LineBreak), None),
            }
        } else {
            match run_kind(acc1) {
                Err(e) => Err(e),
                Ok(kind) => lex_from(s, i + 1, acc1, Some((kind, i))),
            }
        }
    }
}

/// The tokens of the text `s`, or the first lexical error in it.
pub open spec fn lex_spec(s: Seq<char>) -> Result<Seq<TokenV>, LexError> {
    lex_from(s, 0, Seq::empty(), None)
}

/// The value of what `lexer` returns.
pub open spec fn lex_result_view(r: Result<Vec<Token>, LexError>) -> Result<Seq<TokenV>, LexError> {
    match r {
        Ok(tokens) => Ok(tokens.deep_view()),
        Err(e) => Err(e),
    }
}

pub open spec fn run_view(run: Option<(RunKind, usize)>) -> Option<(RunKind, int)> {
    match run {
        None => None,
        Some((k, p)) => Some((k, p as int)),
    }
}

fn run_kind_of(tokens: &Vec<Token>) -> (r: Result<RunKind, LexError>)
    ensures
        r == run_kind(tokens.deep_view()),
{
    let n = tokens.len();
    if n == 0 {
        return Ok(RunKind::Code);
    }
    match &tokens[n - 1] {
        Token::SectionMetaStart => Ok(RunKind::SectionMetaKey),
        Token::MetaStart => Ok(RunKind::MetaKey),
        Token::Equal => {
            if n >= 2 {
                match &tokens[n - 2] {
                    Token::SectionMetaKey(_) => Ok(RunKind::SectionMetaValue),
                    Token::MetaKey(_) => Ok(RunKind::MetaValue),
                    _ => Err(LexError::InvalidTokenBeforeEqual),
                }
            } else {
                Err(LexError::InvalidTokenBeforeEqual)
            }
        },
        _ => Ok(RunKind::Code),
    }
}

fn line_break_error_of(tokens: &Vec<Token>) -> (r: Option<LexError>)
    ensures
        r == line_break_error(tokens.deep_view()),
{
    let n = tokens.len();
    if n == 0 {
        return None;
    }
    match &tokens[n - 1] {
        Token::SectionMetaKey(_) => Some(LexError::SectionMetaKeyLineBreak),
        Token::MetaKey(_) => Some(LexError::MetaKeyLineBreak),
        Token::MetaValue(_) => Some(LexError::MetaValueLineBreak),
        Token::Comma => Some(LexError::ChordBlockLineBreak),
        _ => None,
    }
}

fn push_token(tokens: &mut Vec<Token>, t: Token)
    ensures
        final(tokens).deep_view() == old(tokens).deep_view().push(t.deep_view()),
{
    tokens.push(t);
    assert(final(tokens).deep_view() =~= old(tokens).deep_view().push(t.deep_view()));
}

fn make_run_token(kind: RunKind, text: String) -> (t: Token)
    ensures
        t.deep_view() == run_token(kind, text@),
{
    match kind {
        RunKind::SectionMetaKey => Token::SectionMetaKey(text),
        RunKind::SectionMetaValue => Token::SectionMetaValue(text),
        RunKind::MetaKey => Token::MetaKey(text),
        RunKind::MetaValue => Token::MetaValue(text),
        RunKind::Code => Token::Code(text),
    }
}

fn flush_run(input: &str, i: usize, tokens: &mut Vec<Token>, run: Option<(RunKind, usize)>)
    requires
        i <= input@.len(),
        match run {
            Some((_, p)) => p <= i,
            None => true,
        },
    ensures
        final(tokens).deep_view() == flush(input@, i as int, old(tokens).deep_view(), run_view(run)),
{
    if let Some((kind, start)) = run {
        let text = String::from_str(input.substring_char(start, i));
        push_token(tokens, make_run_token(kind, text));
    }
}

/// Splits `input` into tokens, left to right, failing on the first lexical error.
pub fn lexer(input: &str) -> (r: Result<Vec<Token>, LexError>)
    ensures
        lex_result_view(r) == lex_spec(input@),
{
    let n = input.unicode_len();
    let mut tokens: Vec<Token> = Vec::new();
    let mut run: Option<(RunKind, usize)> = None;
    let mut i: usize = 0;
    assert(tokens.deep_view() =~= Seq::<TokenV>::empty());
    while i < n
        invariant
            n == input@.len(),
            i <= n,
            match run {
                Some((_, p)) => p < i,
                None => true,
            },
            lex_spec(input@) == lex_from(input@, i as int, tokens.deep_view(), run_view(run)),
        decreases n - i,
    {
        let c = input.get_char(i);
        let in_run = run.is_some();
        if in_run && !(c == '\n' || c == '\r' || c == '@' || c == '(' || c == ')' || c == '|'
            || c == '=' || c == ',' || c == '\t') {
            i = i + 1;
        } else {
            flush_run(input, i, &mut tokens, run);
            run = None;
            if c == '@' {
                push_token(&mut tokens, Token::SectionMetaStart);
            } else if c == '(' {
                push_token(&mut tokens, Token::MetaStart);
            } else if c == ')' {
                push_token(&mut tokens, Token::MetaEnd);
            } else if c == '|' {
                push_token(&mut tokens, Token::BlockSeparator);
            } else if c == '=' {
                push_token(&mut tokens, Token::Equal);
            } else if c == ',' {
                push_token(&mut tokens, Token::Comma);
            } else if c == ' ' || c == '\u{3000}' || c == '\t' {
            } else if c == '\n' || c == '\r' {
                match line_break_error_of(&tokens) {
                    Some(e) => {
                        return Err(e);
                    },
                    None => {
                        push_token(&mut tokens, Token::LineBreak);
                    },
                }
            } else {
                match run_kind_of(&tokens) {
                    Err(e) => {
                        return Err(e);
                    },
                    Ok(kind) => {
                        run = Some((kind, i));
                    },
                }
            }
            i = i + 1;
        }
    }
    flush_run(input, i, &mut tokens, run);
    Ok(tokens)
}

} // verus!
