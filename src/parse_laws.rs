use vstd::prelude::*;

use crate::document::{Ast, SectionMetaV, SectionV};
use crate::errors::{LexError, ParseError};
use crate::lexer::{lex_result_view, lex_spec, Token, TokenV};
use crate::parser::{
    add_section_meta, block_pending, close_line, initial_state, parse_result_view, parse_spec, run,
    section_meta_of, step, tok, ParseState,
};

verus! {

/// A construct that parses within `pre` parses the same way whatever follows `pre`.
proof fn lemma_step_prefix(pre: Seq<TokenV>, suf: Seq<TokenV>, i: int, st: ParseState)
    requires
        0 <= i < pre.len(),
        step(pre, i, st) is Ok,
    ensures
        step(pre + suf, i, st) == step(pre, i, st),
        step(pre, i, st)->Ok_0.0 <= pre.len(),
{
    let all = pre + suf;
    assert forall|j: int| 0 <= j < pre.len() implies #[trigger] tok(all, j) == tok(pre, j) by {
        assert(all[j] == pre[j]);
    }
    assert(tok(all, i + 1) == tok(pre, i + 1) || i + 1 >= pre.len());
    assert(tok(all, i + 2) == tok(pre, i + 2) || i + 2 >= pre.len());
    assert(tok(all, i + 3) == tok(pre, i + 3) || i + 3 >= pre.len());
    assert(tok(all, i + 4) == tok(pre, i + 4) || i + 4 >= pre.len());
    assert(all[i] == pre[i]);
}

/// Tokens after a prefix that parses do not change how the prefix parses.
proof fn lemma_run_prefix(pre: Seq<TokenV>, suf: Seq<TokenV>, i: int, st: ParseState)
    requires
        0 <= i <= pre.len(),
        run(pre, i, st) is Ok,
    ensures
        run(pre + suf, i, st) == run(pre + suf, pre.len() as int, run(pre, i, st)->Ok_0),
    decreases pre.len() - i,
{
    if i < pre.len() {
        lemma_step_prefix(pre, suf, i, st);
        let (j, s) = step(pre, i, st)->Ok_0;
        lemma_run_prefix(pre, suf, j, s);
    }
}

/// The tokens of the line `@k=v` and its line break.
pub open spec fn section_meta_line(k: Seq<char>, v: Seq<char>) -> Seq<TokenV> {
    seq![
        TokenV::SectionMetaStart,
        TokenV::SectionMetaKey(k),
        TokenV::Equal,
        TokenV::SectionMetaValue(v),
        TokenV::LineBreak,
    ]
}

/// A section metadata line after tokens that parse adds exactly one metadata entry: to the
/// last section while it has no chord block, else to a new section. Its key must be `section`
/// or `repeat`, and a `repeat` value must be a number; otherwise the line's error is the result.
pub proof fn lemma_section_meta_line(pre: Seq<TokenV>, k: Seq<char>, v: Seq<char>)
    requires
        parse_spec(pre) is Ok,
    ensures
        parse_spec(pre + section_meta_line(k, v)) == match section_meta_of(k, v) {
            Err(e) => Err::<Seq<SectionV>, ParseError>(e),
            Ok(m) => Ok(add_section_meta(parse_spec(pre)->Ok_0, m)),
        },
{
    let line = section_meta_line(k, v);
    let all = pre + line;
    let n = pre.len() as int;
    lemma_run_prefix(pre, line, 0, initial_state());
    let st = run(pre, 0, initial_state())->Ok_0;
    let s1 = close_line(st)->Ok_0;
    assert(!block_pending(s1));
    assert(all[n] == TokenV::SectionMetaStart);
    assert(tok(all, n + 1) == Some(TokenV::SectionMetaKey(k)));
    assert(tok(all, n + 2) == Some(TokenV::Equal));
    assert(tok(all, n + 3) == Some(TokenV::SectionMetaValue(v)));
    assert(tok(all, n + 4) == Some(TokenV::LineBreak));
    assert(all.len() == n + 5);
    match section_meta_of(k, v) {
        Err(e) => {
            assert(step(all, n, st) == Err::<(int, ParseState), ParseError>(e));
        },
        Ok(m) => {
            let s2 = ParseState { sections: add_section_meta(s1.sections, m), ..s1 };
            assert(step(all, n, st) == Ok::<(int, ParseState), ParseError>((n + 5, s2)));
            assert(run(all, n + 5, s2) == Ok::<ParseState, ParseError>(s2));
        },
    }
}

/// A `@repeat=` line takes any value that reads as a `u32` (`0` included) and fails with
/// `RepeatValueNotNumeric` on every other value.
pub proof fn lemma_repeat_value(pre: Seq<TokenV>, v: Seq<char>)
    requires
        parse_spec(pre) is Ok,
    ensures
        crate::chord::u32_of(v) is None ==> parse_spec(
            pre + section_meta_line(crate::parser::repeat_word(), v),
        ) == Err::<Seq<SectionV>, ParseError>(ParseError::RepeatValueNotNumeric),
        crate::chord::u32_of(v) is Some ==> parse_spec(
            pre + section_meta_line(crate::parser::repeat_word(), v),
        ) == Ok::<Seq<SectionV>, ParseError>(
            add_section_meta(
                parse_spec(pre)->Ok_0,
                SectionMetaV::Repeat(crate::chord::u32_of(v)->0),
            ),
        ),
{
    lemma_section_meta_line(pre, crate::parser::repeat_word(), v);
    assert(crate::parser::repeat_word() != crate::parser::section_word()) by {
        assert(crate::parser::repeat_word()[0] != crate::parser::section_word()[0]);
    }
}

/// Two results that both meet `parse`'s contract for one token sequence are equal.
pub proof fn lemma_parse_deterministic(
    toks: Seq<TokenV>,
    r1: Result<Ast, ParseError>,
    r2: Result<Ast, ParseError>,
)
    requires
        parse_result_view(r1) == parse_spec(toks),
        parse_result_view(r2) == parse_spec(toks),
    ensures
        parse_result_view(r1) == parse_result_view(r2),
{
}

/// Tokenizing a text and parsing the tokens, done twice under the two contracts, gives equal
/// tokens and equal documents (or equal errors).
pub proof fn lemma_pipeline_deterministic(
    input: Seq<char>,
    l1: Result<Vec<Token>, LexError>,
    l2: Result<Vec<Token>, LexError>,
    p1: Result<Ast, ParseError>,
    p2: Result<Ast, ParseError>,
)
    requires
        lex_result_view(l1) == lex_spec(input),
        lex_result_view(l2) == lex_spec(input),
        l1 is Ok ==> parse_result_view(p1) == parse_spec(l1->Ok_0.deep_view()),
        l2 is Ok ==> parse_result_view(p2) == parse_spec(l2->Ok_0.deep_view()),
    ensures
        lex_result_view(l1) == lex_result_view(l2),
        l1 is Ok <==> l2 is Ok,
        l1 is Ok ==> l1->Ok_0.deep_view() == l2->Ok_0.deep_view() && parse_result_view(p1)
            == parse_result_view(p2),
{
}

} // verus!
