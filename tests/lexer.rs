use chord_notation::errors::LexError;
use chord_notation::lexer::{lexer, Token};

fn key(s: &str) -> Token {
    Token::SectionMetaKey(s.to_string())
}

fn value(s: &str) -> Token {
    Token::SectionMetaValue(s.to_string())
}

fn meta_key(s: &str) -> Token {
    Token::MetaKey(s.to_string())
}

fn meta_value(s: &str) -> Token {
    Token::MetaValue(s.to_string())
}

fn code(s: &str) -> Token {
    Token::Code(s.to_string())
}

#[test]
fn section_meta_info() {
    let input = "@section=A";
    let expected = vec![Token::SectionMetaStart, key("section"), Token::Equal, value("A")];
    let lex_result = lexer(input);
    assert!(lex_result.is_ok());
    assert_eq!(lex_result.unwrap(), expected);
}

#[test]
fn multiple_section_meta_info() {
    let input = "
                @section=A
                @sample=aaa
                ";
    let expected = vec![
        Token::LineBreak,
        Token::SectionMetaStart,
        key("section"),
        Token::Equal,
        value("A"),
        Token::LineBreak,
        Token::SectionMetaStart,
        key("sample"),
        Token::Equal,
        value("aaa"),
        Token::LineBreak,
    ];
    let lex_result = lexer(input);
    assert!(lex_result.is_ok());
    assert_eq!(lex_result.unwrap(), expected);
}

#[test]
fn code_block() {
    let input = "
                |C|F|Fm|C|
                ";
    let expected = vec![
        Token::LineBreak,
        Token::BlockSeparator,
        code("C"),
        Token::BlockSeparator,
        code("F"),
        Token::BlockSeparator,
        code("Fm"),
        Token::BlockSeparator,
        code("C"),
        Token::BlockSeparator,
        Token::LineBreak,
    ];
    let lex_result = lexer(input);
    assert!(lex_result.is_ok());
    assert_eq!(lex_result.unwrap(), expected);
}

#[test]
fn code_block_with_multiple_meta_info() {
    let input = "
                |(key=C)(sample=aaa)C|F|(key=Eb)Fm,(sample=bbb)Bb|C|
                ";
    let expected = vec![
        Token::LineBreak,
        Token::BlockSeparator,
        Token::MetaStart,
        meta_key("key"),
        Token::Equal,
        meta_value("C"),
        Token::MetaEnd,
        Token::MetaStart,
        meta_key("sample"),
        Token::Equal,
        meta_value("aaa"),
        Token::MetaEnd,
        code("C"),
        Token::BlockSeparator,
        code("F"),
        Token::BlockSeparator,
        Token::MetaStart,
        meta_key("key"),
        Token::Equal,
        meta_value("Eb"),
        Token::MetaEnd,
        code("Fm"),
        Token::Comma,
        Token::MetaStart,
        meta_key("sample"),
        Token::Equal,
        meta_value("bbb"),
        Token::MetaEnd,
        code("Bb"),
        Token::BlockSeparator,
        code("C"),
        Token::BlockSeparator,
        Token::LineBreak,
    ];
    let lex_result = lexer(input);
    assert!(lex_result.is_ok());
    assert_eq!(lex_result.unwrap(), expected);
}

fn four_blocks(codes: [&str; 4]) -> Vec<Token> {
    let mut v = vec![Token::BlockSeparator];
    for c in codes {
        v.push(code(c));
        v.push(Token::BlockSeparator);
    }
    v.push(Token::LineBreak);
    v
}

#[test]
fn complicated() {
    let input = "
                @section=A
                @sample=aaa
                |C|C7|F|Fm7|
                |C|C7|F|Fm7|

                @section=B
                |(key=F)Gm|Gm|F|F|
                |Gm|Gm|F|F|
                ";
    let mut expected = vec![
        Token::LineBreak,
        Token::SectionMetaStart,
        key("section"),
        Token::Equal,
        value("A"),
        Token::LineBreak,
        Token::SectionMetaStart,
        key("sample"),
        Token::Equal,
        value("aaa"),
        Token::LineBreak,
    ];
    expected.extend(four_blocks(["C", "C7", "F", "Fm7"]));
    expected.extend(four_blocks(["C", "C7", "F", "Fm7"]));
    expected.extend(vec![
        Token::LineBreak,
        Token::SectionMetaStart,
        key("section"),
        Token::Equal,
        value("B"),
        Token::LineBreak,
        Token::BlockSeparator,
        Token::MetaStart,
        meta_key("key"),
        Token::Equal,
        meta_value("F"),
        Token::MetaEnd,
        code("Gm"),
        Token::BlockSeparator,
        code("Gm"),
        Token::BlockSeparator,
        code("F"),
        Token::BlockSeparator,
        code("F"),
        Token::BlockSeparator,
        Token::LineBreak,
    ]);
    expected.extend(four_blocks(["Gm", "Gm", "F", "F"]));
    let lex_result = lexer(input);
    assert!(lex_result.is_ok());
    assert_eq!(lex_result.unwrap(), expected);
}

#[test]
fn section_meta_info_key_should_not_contains_line_break() {
    let input = "
            @sect
            ion=A
            ";
    let lex_result = lexer(input);
    assert!(lex_result.is_err());
    assert_eq!(lex_result.unwrap_err(), LexError::SectionMetaKeyLineBreak);
}

#[test]
fn meta_info_key_should_not_contains_line_break() {
    let input = "
                |(aaaa
                    aaaa=bbbb
                )C|
                ";
    let lex_result = lexer(input);
    assert!(lex_result.is_err());
    assert_eq!(lex_result.unwrap_err(), LexError::MetaKeyLineBreak);
}

#[test]
fn meta_info_value_should_not_contains_line_break() {
    let input = "
                |(aaaa=bbbb
                    bbbb)C|
                ";
    let lex_result = lexer(input);
    assert!(lex_result.is_err());
    assert_eq!(lex_result.unwrap_err(), LexError::MetaValueLineBreak);
}

#[test]
fn code_block_should_not_contains_line_break() {
    let input = "
                |C,
                C7|F|Fm7|
                ";
    let lex_result = lexer(input);
    assert!(lex_result.is_err());
    assert_eq!(lex_result.unwrap_err(), LexError::ChordBlockLineBreak);
}

#[test]
fn runs_keep_inner_spaces_and_stop_at_tabs() {
    let tokens = lexer("|C 7\tF|").unwrap();
    assert_eq!(
        tokens,
        vec![Token::BlockSeparator, code("C 7"), code("F"), Token::BlockSeparator]
    );
}

#[test]
fn full_width_space_is_skipped() {
    let tokens = lexer("\u{3000}|C|").unwrap();
    assert_eq!(tokens, vec![Token::BlockSeparator, code("C"), Token::BlockSeparator]);
}

#[test]
fn value_without_key_is_rejected() {
    assert_eq!(lexer("|C=D|").unwrap_err(), LexError::InvalidTokenBeforeEqual);
    assert_eq!(lexer("=x").unwrap_err(), LexError::InvalidTokenBeforeEqual);
}

#[test]
fn carriage_return_is_a_line_break() {
    assert_eq!(lexer("\r").unwrap(), vec![Token::LineBreak]);
    assert_eq!(lexer("@k\r").unwrap_err(), LexError::SectionMetaKeyLineBreak);
}

#[test]
fn empty_input_has_no_tokens() {
    assert_eq!(lexer("").unwrap(), Vec::<Token>::new());
}

#[test]
fn tokenizing_twice_gives_equal_tokens() {
    let input = "@section=A\n|(key=C)C/E,Fm|\n";
    assert_eq!(lexer(input), lexer(input));
}
