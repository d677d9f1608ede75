use vstd::prelude::*;

verus! {

/// Why the text could not be split into tokens.
#[derive(Debug, Clone, Copy, PartialEq, Eq, Structural)]
pub enum LexError {
    /// A line break right after a section metadata key.
    SectionMetaKeyLineBreak,
    /// A line break right after a chord metadata key.
    MetaKeyLineBreak,
    /// A line break right after a chord metadata value.
    MetaValueLineBreak,
    /// A line break right after a comma inside a chord block.
    ChordBlockLineBreak,
    /// A run of text after `=` that follows neither kind of key.
    InvalidTokenBeforeEqual,
}

/// Why a token sequence is not a document.
#[derive(Debug, Clone, Copy, PartialEq, Eq, Structural)]
pub enum ParseError {
    /// `@` is not followed by a section metadata key.
    EmptySectionMetaKey,
    /// A section metadata key is not followed by `=`.
    SectionMetaKeyNeedsEqual,
    /// `=` after a section metadata key is not followed by a value.
    EmptySectionMetaValue,
    /// A section metadata value is not followed by a line break.
    SectionMetaValueNeedsLineBreak,
    /// A section metadata key other than `section` and `repeat`.
    UnknownSectionMetaKey,
    /// A `repeat` value that is not a non-negative 32-bit integer.
    RepeatValueNotNumeric,
    /// `(` is not followed by a metadata key.
    EmptyMetaKey,
    /// A metadata key is not followed by `=`.
    MetaKeyNeedsEqual,
    /// `=` after a metadata key is not followed by a value.
    EmptyMetaValue,
    /// A metadata value is not followed by `)`.
    MetaValueNeedsClose,
    /// A metadata key other than `key`.
    UnknownMetaKey,
    /// The value of `key` is not a key name.
    InvalidKeyName,
    /// `||`: a chord block that holds no entry.
    EmptyChordBlock,
    /// A chord entry without chord text (before `,`, or metadata alone).
    EmptyChord,
    /// Chord text with more than one `/`.
    MultipleSlashes,
    /// A token where no construct expects one.
    InvalidToken,
}

} // verus!
