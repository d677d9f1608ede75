use chord_notation::chord::{parse_key_name, parse_u32};
use chord_notation::document::{
    Accidental, Chord, ChordInfo, ChordInfoMeta, ChordOrUnidentified, KeyName, Note, Section,
    SectionMeta,
};
use chord_notation::errors::ParseError;
use chord_notation::lexer::{lexer, Token};
use chord_notation::parser::parse;

fn parse_text(input: &str) -> Result<Vec<Section>, ParseError> {
    let tokens = lexer(input).expect("input should tokenize");
    parse(&tokens)
}

fn plain(root: Note, quality: &str) -> ChordInfo {
    ChordInfo {
        meta_infos: vec![],
        chord: ChordOrUnidentified::Chord(Chord {
            root,
            accidental: None,
            quality: quality.to_string(),
        }),
        denominator: None,
    }
}

fn section_label(s: &str) -> SectionMeta {
    SectionMeta::Section { value: s.to_string() }
}

#[test]
fn four_blocks_in_one_section() {
    let doc = parse_text("|C|F|Fm|C|").unwrap();
    assert_eq!(doc.len(), 1);
    assert!(doc[0].meta_infos.is_empty());
    assert_eq!(
        doc[0].chord_blocks,
        vec![
            vec![plain(Note::C, "")],
            vec![plain(Note::F, "")],
            vec![plain(Note::F, "m")],
            vec![plain(Note::C, "")],
        ]
    );
}

#[test]
fn unknown_chord_meta_key_is_rejected() {
    assert_eq!(parse_text("|(key=C)(sample=aaa)C|"), Err(ParseError::UnknownMetaKey));
}

#[test]
fn unknown_section_meta_key_is_rejected() {
    assert_eq!(
        parse_text("@section=A\n@sample=aaa\n|C|F|"),
        Err(ParseError::UnknownSectionMetaKey)
    );
}

#[test]
fn section_meta_after_blocks_starts_a_new_section() {
    let doc = parse_text("@section=A\n@repeat=2\n|C|\n@section=B\n|F|\n").unwrap();
    assert_eq!(doc.len(), 2);
    assert_eq!(
        doc[0].meta_infos,
        vec![section_label("A"), SectionMeta::Repeat { value: 2 }]
    );
    assert_eq!(doc[0].chord_blocks, vec![vec![plain(Note::C, "")]]);
    assert_eq!(doc[1].meta_infos, vec![section_label("B")]);
    assert_eq!(doc[1].chord_blocks, vec![vec![plain(Note::F, "")]]);
}

#[test]
fn repeat_values() {
    let doc = parse_text("@repeat=0\n").unwrap();
    assert_eq!(doc[0].meta_infos, vec![SectionMeta::Repeat { value: 0 }]);
    let doc = parse_text("@repeat=4294967295\n").unwrap();
    assert_eq!(doc[0].meta_infos, vec![SectionMeta::Repeat { value: 4294967295 }]);
    for bad in ["-1", "x", "4294967296", "1.5", "+"] {
        let input = format!("@repeat={}\n", bad);
        assert_eq!(parse_text(&input), Err(ParseError::RepeatValueNotNumeric));
    }
}

#[test]
fn number_reader() {
    assert_eq!(parse_u32("0"), Some(0));
    assert_eq!(parse_u32("+17"), Some(17));
    assert_eq!(parse_u32("4294967295"), Some(u32::MAX));
    assert_eq!(parse_u32(""), None);
    assert_eq!(parse_u32("99999999999"), None);
    assert_eq!(parse_u32("1a"), None);
}

#[test]
fn key_names() {
    assert_eq!(
        parse_key_name("F#m"),
        Some(KeyName { note: Note::F, accidental: Some(Accidental::Sharp), minor: true })
    );
    assert_eq!(
        parse_key_name("Eb"),
        Some(KeyName { note: Note::E, accidental: Some(Accidental::Flat), minor: false })
    );
    assert_eq!(parse_key_name("H"), None);
    assert_eq!(parse_key_name("Cmaj"), None);
}

#[test]
fn entries_with_meta_and_denominator() {
    let doc = parse_text("|(key=Eb)Fm7/C,Bb|x|").unwrap();
    let blocks = &doc[0].chord_blocks;
    assert_eq!(blocks.len(), 2);
    assert_eq!(blocks[0].len(), 2);
    assert_eq!(
        blocks[0][0],
        ChordInfo {
            meta_infos: vec![ChordInfoMeta::Key {
                value: KeyName { note: Note::E, accidental: Some(Accidental::Flat), minor: false },
            }],
            chord: ChordOrUnidentified::Chord(Chord {
                root: Note::F,
                accidental: None,
                quality: "m7".to_string(),
            }),
            denominator: Some("C".to_string()),
        }
    );
    assert_eq!(
        blocks[0][1].chord,
        ChordOrUnidentified::Chord(Chord {
            root: Note::B,
            accidental: Some(Accidental::Flat),
            quality: String::new(),
        })
    );
    assert_eq!(blocks[1][0].chord, ChordOrUnidentified::Unidentified);
}

#[test]
fn structural_errors() {
    assert_eq!(parse_text("|C||D|"), Err(ParseError::EmptyChordBlock));
    assert_eq!(parse_text("|(key=C)|"), Err(ParseError::EmptyChord));
    assert_eq!(parse_text("|,C|"), Err(ParseError::EmptyChord));
    assert_eq!(parse_text("|C/D/E|"), Err(ParseError::MultipleSlashes));
    assert_eq!(parse_text("|(key=H)C|"), Err(ParseError::InvalidKeyName));
    assert_eq!(parse_text("|(key=C|"), Err(ParseError::MetaValueNeedsClose));
    assert_eq!(parse_text("|(key)C|"), Err(ParseError::MetaKeyNeedsEqual));
    assert_eq!(parse_text("|()C|"), Err(ParseError::EmptyMetaKey));
    assert_eq!(parse_text("|(key=)C|"), Err(ParseError::EmptyMetaValue));
    assert_eq!(parse_text("@section=A"), Err(ParseError::SectionMetaValueNeedsLineBreak));
    let tokens = vec![
        Token::SectionMetaStart,
        Token::SectionMetaKey("section".to_string()),
        Token::LineBreak,
    ];
    assert_eq!(parse(&tokens), Err(ParseError::SectionMetaKeyNeedsEqual));
    assert_eq!(parse_text("@section=\n"), Err(ParseError::EmptySectionMetaValue));
    assert_eq!(parse_text("@\n"), Err(ParseError::EmptySectionMetaKey));
    assert_eq!(parse_text("C\n"), Err(ParseError::InvalidToken));
    assert_eq!(parse_text(")"), Err(ParseError::InvalidToken));
    assert_eq!(parse_text("(key=C)"), Err(ParseError::InvalidToken));
}

#[test]
fn open_block_closes_at_line_end() {
    let doc = parse_text("|C|F\n|G|").unwrap();
    assert_eq!(
        doc[0].chord_blocks,
        vec![vec![plain(Note::C, "")], vec![plain(Note::F, "")], vec![plain(Note::G, "")]]
    );
}

#[test]
fn empty_input_gives_empty_document() {
    assert_eq!(parse_text(""), Ok(vec![]));
    assert_eq!(parse_text("\n\n"), Ok(vec![]));
}

#[test]
fn parsing_twice_gives_equal_documents() {
    let tokens = lexer("@section=A\n|(key=C)C/E,Fm|G|\n").unwrap();
    assert_eq!(parse(&tokens), parse(&tokens));
}

#[test]
fn section_meta_line_appends_one_meta() {
    let tokens = lexer("|C|\n@section=Verse\n").unwrap();
    let tail: Vec<Token> = tokens[tokens.len() - 5..].to_vec();
    assert_eq!(
        tail,
        vec![
            Token::SectionMetaStart,
            Token::SectionMetaKey("section".to_string()),
            Token::Equal,
            Token::SectionMetaValue("Verse".to_string()),
            Token::LineBreak,
        ]
    );
    let doc = parse(&tokens).unwrap();
    assert_eq!(doc.len(), 2);
    assert_eq!(doc[1].meta_infos, vec![section_label("Verse")]);
    assert!(doc[1].chord_blocks.is_empty());
    let doc = parse_text("@section=A\n@section=B\n").unwrap();
    assert_eq!(doc.len(), 1);
    assert_eq!(doc[0].meta_infos, vec![section_label("A"), section_label("B")]);
}
