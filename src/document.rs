use vstd::prelude::*;

verus! {

/// A natural note name.
#[derive(Debug, Clone, Copy, PartialEq, Eq, Structural)]
pub enum Note {
    C,
    D,
    E,
    F,
    G,
    A,
    B,
}

/// `#` or `b` after a note name.
#[derive(Debug, Clone, Copy, PartialEq, Eq, Structural)]
pub enum Accidental {
    Sharp,
    Flat,
}

/// A key: a note, an optional accidental, and whether it is minor (`m`).
#[derive(Debug, Clone, Copy, PartialEq, Eq, Structural)]
pub struct KeyName {
    pub note: Note,
    pub accidental: Option<Accidental>,
    pub minor: bool,
}

/// Metadata of one chord entry.
#[derive(Debug, Clone, Copy, PartialEq, Eq, Structural)]
pub enum ChordInfoMeta {
    Key { value: KeyName },
}

/// A chord: root, accidental, and the rest of its text as quality.
#[derive(Debug, Clone, PartialEq, Eq)]
pub struct Chord {
    pub root: Note,
    pub accidental: Option<Accidental>,
    pub quality: String,
}

#[derive(Debug, Clone, PartialEq, Eq)]
pub enum ChordOrUnidentified {
    Chord(Chord),
    Unidentified,
}

/// One chord entry of a chord block.
#[derive(Debug, Clone, PartialEq, Eq)]
pub struct ChordInfo {
    pub meta_infos: Vec<ChordInfoMeta>,
    pub chord: ChordOrUnidentified,
    /// The bass note after `/`, kept as raw text.
    pub denominator: Option<String>,
}

/// One measure: the chord entries between two `|`.
pub type ChordBlock = Vec<ChordInfo>;

#[derive(Debug, Clone, PartialEq, Eq)]
pub enum SectionMeta {
    Section { value: String },
    Repeat { value: u32 },
}

#[derive(Debug, Clone, PartialEq, Eq)]
pub struct Section {
    pub meta_infos: Vec<SectionMeta>,
    pub chord_blocks: Vec<ChordBlock>,
}

/// A parsed document: its sections in reading order.
pub type Ast = Vec<Section>;

pub struct ChordV {
    pub root: Note,
    pub accidental: Option<Accidental>,
    pub quality: Seq<char>,
}

pub enum ChordOrUnidentifiedV {
    Chord(ChordV),
    Unidentified,
}

pub struct ChordInfoV {
    pub meta_infos: Seq<ChordInfoMeta>,
    pub chord: ChordOrUnidentifiedV,
    pub denominator: Option<Seq<char>>,
}

pub enum SectionMetaV {
    Section(Seq<char>),
    Repeat(u32),
}

pub struct SectionV {
    pub meta_infos: Seq<SectionMetaV>,
    pub chord_blocks: Seq<Seq<ChordInfoV>>,
}

impl DeepView for Chord {
    type V = ChordV;

    open spec fn deep_view(&self) -> ChordV {
        ChordV { root: self.root, accidental: self.accidental, quality: self.quality@ }
    }
}

impl DeepView for ChordOrUnidentified {
    type V = ChordOrUnidentifiedV;

    open spec fn deep_view(&self) -> ChordOrUnidentifiedV {
        match self {
            ChordOrUnidentified::Chord(c) => ChordOrUnidentifiedV::Chord(c.deep_view()),
            ChordOrUnidentified::Unidentified => ChordOrUnidentifiedV::Unidentified,
        }
    }
}

impl DeepView for ChordInfo {
    type V = ChordInfoV;

    open spec fn deep_view(&self) -> ChordInfoV {
        ChordInfoV {
            meta_infos: self.meta_infos@,
            chord: self.chord.deep_view(),
            denominator: match self.denominator {
                Some(d) => Some(d@),
                None => None,
            },
        }
    }
}

impl DeepView for SectionMeta {
    type V = SectionMetaV;

    open spec fn deep_view(&self) -> SectionMetaV {
        match self {
            SectionMeta::Section { value } => SectionMetaV::Section(value@),
            SectionMeta::Repeat { value } => SectionMetaV::Repeat(*value),
        }
    }
}

impl DeepView for Section {
    type V = SectionV;

    open spec fn deep_view(&self) -> SectionV {
        SectionV {
            meta_infos: self.meta_infos.deep_view(),
            chord_blocks: self.chord_blocks.deep_view(),
        }
    }
}

} // verus!
