use vstd::prelude::*;

use crate::errors::LexError;
use crate::lexer::{
    ends_run, flush, is_blank, is_line_end, lex_from, lex_result_view, lex_spec, line_break_error,
    marker_token, run_kind, RunKind, Token, TokenV,
};

verus! {

pub open spec fn run_in_bounds(run: Option<(RunKind, int)>, i: int) -> bool {
    match run {
        Some((_, start)) => 0 <= start <= i,
        None => true,
    }
}

/// Text that lexes as a single run: not empty, not starting with a blank, and free of the
/// characters that end a run.
pub open spec fn plain_text(t: Seq<char>) -> bool {
    t.len() > 0 && !is_blank(t[0]) && forall|k: int| 0 <= k < t.len() ==> !ends_run(#[trigger] t[k])
}

proof fn lemma_flush_prefix(p: Seq<char>, q: Seq<char>, i: int, acc: Seq<TokenV>, run: Option<(RunKind, int)>)
    requires
        0 <= i <= p.len(),
        run_in_bounds(run, i),
    ensures
        flush(p + q, i, acc, run) == flush(p, i, acc, run),
{
    if let Some((_, start)) = run {
        assert((p + q).subrange(start, i) =~= p.subrange(start, i));
    }
}

/// Text that follows a run-ending character does not change how what comes before it lexes.
proof fn lemma_lex_prefix(p: Seq<char>, q: Seq<char>, i: int, acc: Seq<TokenV>, run: Option<(RunKind, int)>)
    requires
        0 <= i <= p.len(),
        run_in_bounds(run, i),
        q.len() == 0 || ends_run(q[0]),
        lex_from(p, i, acc, run) is Ok,
    ensures
        lex_from(p + q, i, acc, run) == lex_from(p + q, p.len() as int, lex_from(p, i, acc, run)->Ok_0, None),
    decreases p.len() - i,
{
    let s = p + q;
    lemma_flush_prefix(p, q, i, acc, run);
    if i == p.len() {
        if q.len() > 0 {
            assert(s[i] == q[0]);
        }
    } else {
        assert(s[i] == p[i]);
        let c = p[i];
        if run is Some && !ends_run(c) {
            lemma_lex_prefix(p, q, i + 1, acc, run);
        } else {
            let acc1 = flush(p, i, acc, run);
            if marker_token(c) is Some {
                lemma_lex_prefix(p, q, i + 1, acc1.push(marker_token(c)->0), None);
            } else if is_blank(c) {
                lemma_lex_prefix(p, q, i + 1, acc1, None);
            } else if is_line_end(c) {
                lemma_lex_prefix(p, q, i + 1, acc1.push(TokenV::LineBreak), None);
            } else {
                lemma_lex_prefix(p, q, i + 1, acc1, Some((run_kind(acc1)->Ok_0, i)));
            }
        }
    }
}

/// Inside a run, characters that do not end it are consumed without output.
proof fn lemma_run_continues(s: Seq<char>, i: int, j: int, acc: Seq<TokenV>, run: Option<(RunKind, int)>)
    requires
        0 <= i <= j <= s.len(),
        run is Some,
        forall|k: int| i <= k < j ==> !ends_run(#[trigger] s[k]),
    ensures
        lex_from(s, i, acc, run) == lex_from(s, j, acc, run),
    decreases j - i,
{
    if i < j {
        lemma_run_continues(s, i + 1, j, acc, run);
    }
}

/// A plain run `t` at position `i`, after the tokens `acc` and followed by a run-ending
/// character, becomes one token of the kind that `acc` decides.
proof fn lemma_plain_run(s: Seq<char>, i: int, t: Seq<char>, acc: Seq<TokenV>)
    requires
        0 <= i,
        i + t.len() < s.len(),
        s.subrange(i, i + t.len()) == t,
        plain_text(t),
        ends_run(s[i + t.len()]),
        run_kind(acc) is Ok,
    ensures
        lex_from(s, i, acc, None) == lex_from(
            s,
            i + t.len(),
            acc,
            Some((run_kind(acc)->Ok_0, i)),
        ),
{
    assert(s[i] == t[0]);
    assert(!ends_run(t[0]));
    let run = Some((run_kind(acc)->Ok_0, i));
    assert forall|k: int| i + 1 <= k < i + t.len() implies !ends_run(#[trigger] s[k]) by {
        assert(s[k] == t[k - i]);
    }
    lemma_run_continues(s, i + 1, i + t.len(), acc, run);
}

/// A well-formed section metadata line `@key=value` and a line break, appended to any text
/// that lexes, adds exactly the five tokens of that line.
pub proof fn lemma_section_meta_line_tokens(p: Seq<char>, key: Seq<char>, value: Seq<char>)
    requires
        lex_spec(p) is Ok,
        plain_text(key),
        plain_text(value),
    ensures
        lex_spec(p + seq!['@'] + key + seq!['='] + value + seq!['\n']) == Ok::<Seq<TokenV>, LexError>(
            lex_spec(p)->Ok_0 + seq![
                TokenV::SectionMetaStart,
                TokenV::SectionMetaKey(key),
                TokenV::Equal,
                TokenV::SectionMetaValue(value),
                TokenV::LineBreak,
            ],
        ),
{
    let line = seq!['@'] + key + seq!['='] + value + seq!['\n'];
    let s = p + line;
    assert(s =~= p + seq!['@'] + key + seq!['='] + value + seq!['\n']);
    assert(line[0] == '@');
    lemma_lex_prefix(p, line, 0, Seq::empty(), None);
    let t0 = lex_spec(p)->Ok_0;
    let n = p.len() as int;
    let kl = key.len() as int;
    let vl = value.len() as int;
    // `@`
    assert(s[n] == '@');
    let t1 = t0.push(TokenV::SectionMetaStart);
    assert(lex_from(s, n, t0, None) == lex_from(s, n + 1, t1, None));
    // the key
    assert(s.subrange(n + 1, n + 1 + kl) =~= key);
    assert(s[n + 1 + kl] == '=');
    assert(run_kind(t1) == Ok::<RunKind, LexError>(RunKind::SectionMetaKey));
    lemma_plain_run(s, n + 1, key, t1);
    let t2 = t1.push(TokenV::SectionMetaKey(key));
    assert(flush(s, n + 1 + kl, t1, Some((RunKind::SectionMetaKey, n + 1))) == t2);
    let t3 = t2.push(TokenV::Equal);
    assert(lex_from(s, n + 1 + kl, t1, Some((RunKind::SectionMetaKey, n + 1))) == lex_from(
        s,
        n + 2 + kl,
        t3,
        None,
    ));
    // the value
    let vs = n + 2 + kl;
    assert(s.subrange(vs, vs + vl) =~= value);
    assert(s[vs + vl] == '\n');
    assert(t3[t3.len() - 2] == TokenV::SectionMetaKey(key));
    assert(run_kind(t3) == Ok::<RunKind, LexError>(RunKind::SectionMetaValue));
    lemma_plain_run(s, vs, value, t3);
    let t4 = t3.push(TokenV::SectionMetaValue(value));
    assert(flush(s, vs + vl, t3, Some((RunKind::SectionMetaValue, vs))) == t4);
    assert(line_break_error(t4) is None);
    let t5 = t4.push(TokenV::LineBreak);
    assert(s.len() == vs + vl + 1);
    assert(lex_from(s, vs + vl, t3, Some((RunKind::SectionMetaValue, vs))) == lex_from(
        s,
        vs + vl + 1,
        t5,
        None,
    ));
    assert(lex_from(s, vs + vl + 1, t5, None) == Ok::<Seq<TokenV>, LexError>(t5));
    assert(t5 =~= t0 + seq![
        TokenV::SectionMetaStart,
        TokenV::SectionMetaKey(key),
        TokenV::Equal,
        TokenV::SectionMetaValue(value),
        TokenV::LineBreak,
    ]);
}

/// A line break right after a key, a chord metadata value or a comma is always an error, the
/// one that the last token calls for, whatever follows.
pub proof fn lemma_line_break_after_open_token(p: Seq<char>, c: char, q: Seq<char>)
    requires
        lex_spec(p) is Ok,
        is_line_end(c),
        line_break_error(lex_spec(p)->Ok_0) is Some,
    ensures
        lex_spec(p + seq![c] + q) == Err::<Seq<TokenV>, LexError>(
            line_break_error(lex_spec(p)->Ok_0)->0,
        ),
        lex_spec(p)->Ok_0.last() is SectionMetaKey ==> lex_spec(p + seq![c] + q) == Err::<
            Seq<TokenV>,
            LexError,
        >(LexError::SectionMetaKeyLineBreak),
        lex_spec(p)->Ok_0.last() is MetaKey ==> lex_spec(p + seq![c] + q) == Err::<
            Seq<TokenV>,
            LexError,
        >(LexError::MetaKeyLineBreak),
        lex_spec(p)->Ok_0.last() is MetaValue ==> lex_spec(p + seq![c] + q) == Err::<
            Seq<TokenV>,
            LexError,
        >(LexError::MetaValueLineBreak),
{
    let rest = seq![c] + q;
    assert(p + seq![c] + q =~= p + rest);
    assert(rest[0] == c);
    lemma_lex_prefix(p, rest, 0, Seq::empty(), None);
    assert((p + rest)[p.len() as int] == c);
}

/// Two results that both meet `lexer`'s contract for one text are equal.
pub proof fn lemma_lexer_deterministic(
    input: Seq<char>,
    r1: Result<Vec<Token>, LexError>,
    r2: Result<Vec<Token>, LexError>,
)
    requires
        lex_result_view(r1) == lex_spec(input),
        lex_result_view(r2) == lex_spec(input),
    ensures
        lex_result_view(r1) == lex_result_view(r2),
{
}

} // verus!
