use vstd::prelude::*;

verus! {

/// The script or language that a piece of text is written in.
#[derive(PartialEq, Eq, Structural, Clone, Copy, Debug)]
pub enum Script {
    Chinese,
    Pinyin,
    English,
    Unknown,
}

/// The two-letter code of each script: "ZH", "PY", "EN", and "UN" for unknown.
pub open spec fn script_code(s: Script) -> Seq<char> {
    match s {
        Script::Chinese => seq!['Z', 'H'],
        Script::Pinyin => seq!['P', 'Y'],
        Script::English => seq!['E', 'N'],
        Script::Unknown => seq!['U', 'N'],
    }
}

impl Script {
    /// The two-letter code of the script.
    pub fn code(&self) -> (r: &'static str)
        ensures
            r@ == script_code(*self),
    {
        match self {
            Script::Chinese => {
                proof {
                    reveal_strlit("ZH");
                }
                "ZH"
            },
            Script::Pinyin => {
                proof {
                    reveal_strlit("PY");
                }
                "PY"
            },
            Script::English => {
                proof {
                    reveal_strlit("EN");
                }
                "EN"
            },
            Script::Unknown => {
                proof {
                    reveal_strlit("UN");
                }
                "UN"
            },
        }
    }
}

/// A classifier word used when counting or specifying a noun.
#[derive(Clone, Debug, PartialEq, Eq)]
pub struct MeasureWord {
    pub traditional: String,
    pub simplified: String,
    pub pinyin_marks: String,
    pub pinyin_numbers: String,
}

/// One dictionary sense.
#[derive(Clone, Debug, PartialEq, Eq)]
pub struct WordEntry {
    pub traditional: String,
    pub simplified: String,
    /// Romanization with diacritic tone marks, e.g. "nǐ hǎo".
    pub pinyin_marks: String,
    /// Romanization with trailing tone digits, e.g. "ni3 hao3".
    pub pinyin_numbers: String,
    /// Glosses in order of rank; the first is the primary one.
    pub english: Vec<String>,
    /// One tone number per syllable.
    pub tone_marks: Vec<u8>,
    /// Identity of the lexical item, derived from its forms and pronunciation.
    pub hash: u64,
    pub measure_words: Vec<MeasureWord>,
    /// Difficulty level.
    pub hsk: u8,
    pub word_id: u32,
}

} // verus!
