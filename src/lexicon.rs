//! The engine's operations, reached through a handle that exists only once the
//! dictionary's tables are loaded.
use crate::dictionary::{
    chinese_entries, chinese_lookup, classify_text, dictionary_words, english_entries,
    english_lookup, find_words, load_tables, lower_of, lowercase, pinyin_entries, pinyin_lookup,
    reads_simplified, reads_traditional, script_of, simplified_check, simplified_form, simplify,
    traditional_check, traditional_form, traditionalize,
};
use crate::entry::{Script, WordEntry};
use crate::segment::{cover, cover_with_words, lemma_cover_partition, texts};
use vstd::prelude::*;

verus! {

/// The partition that `segment` gives of a text.
pub open spec fn segmentation(s: Seq<char>) -> Seq<Seq<char>> {
    cover(s, dictionary_words(s))
}

/// The entries of the index that the classification of a (lower-case) query
/// selects; no result when the query cannot be classified.
pub open spec fn routed(q: Seq<char>) -> Option<Seq<WordEntry>> {
    match script_of(q) {
        Script::Chinese => Some(chinese_lookup(q)),
        Script::Pinyin => Some(pinyin_lookup(q)),
        Script::English => Some(english_lookup(q)),
        Script::Unknown => None,
    }
}

/// What `query_by_english` gives for a text.
pub open spec fn english_result(s: Seq<char>) -> Seq<WordEntry> {
    english_lookup(lower_of(s))
}

/// What `query_by_pinyin` gives for a text.
pub open spec fn pinyin_result(s: Seq<char>) -> Seq<WordEntry> {
    pinyin_lookup(lower_of(s))
}

/// What `query_by_chinese` gives for a text.
pub open spec fn chinese_result(s: Seq<char>) -> Seq<WordEntry> {
    chinese_lookup(lower_of(s))
}

/// What `query` gives for a text.
pub open spec fn query_result(s: Seq<char>) -> Option<Seq<WordEntry>> {
    routed(lower_of(s))
}

/// Evidence that the dictionary is loaded: every operation of the engine
/// is a method of it, so none can run before the load.
pub struct Lexicon {
    loaded: (),
}

impl Lexicon {
    /// Loads the dictionary. Loading again is harmless: the tables are built
    /// once per process.
    pub fn initialize() -> (r: Lexicon) {
        load_tables();
        Lexicon { loaded: () }
    }

    /// The script of a text; the empty text is of no known script.
    pub fn classify(&self, text: &str) -> (r: Script)
        ensures
            r == script_of(text@),
            text@.len() == 0 ==> r == Script::Unknown,
    {
        classify_text(text)
    }

    /// The text with each character in its Simplified form; characters with
    /// no other form pass through.
    pub fn convert_to_simplified(&self, text: &str) -> (r: String)
        ensures
            r@ == simplified_form(text@),
            text@.len() == 0 ==> r@.len() == 0,
    {
        simplify(text)
    }

    /// The text with each character in its Traditional form; characters with
    /// no other form pass through.
    pub fn convert_to_traditional(&self, text: &str) -> (r: String)
        ensures
            r@ == traditional_form(text@),
            text@.len() == 0 ==> r@.len() == 0,
    {
        traditionalize(text)
    }

    /// Whether the text holds no Traditional-only character.
    pub fn is_simplified(&self, text: &str) -> (r: bool)
        ensures
            r == reads_simplified(text@),
            text@.len() == 0 ==> r,
    {
        simplified_check(text)
    }

    /// Whether the text holds no Simplified-only character.
    pub fn is_traditional(&self, text: &str) -> (r: bool)
        ensures
            r == reads_traditional(text@),
            text@.len() == 0 ==> r,
    {
        traditional_check(text)
    }

    /// Splits the text into dictionary words by greedy longest match; each
    /// character that starts no word is a token of its own.
    pub fn segment(&self, text: &str) -> (r: Vec<String>)
        ensures
            texts(r@) == segmentation(text@),
            texts(r@).flatten() == text@,
            forall|i: int| 0 <= i < r@.len() ==> (#[trigger] r@[i])@.len() > 0,
    {
        let words = find_words(text);
        cover_with_words(text, &words)
    }

    /// The entries whose English glosses match the lower-cased text.
    pub fn query_by_english(&self, text: &str) -> (r: Vec<WordEntry>)
        ensures
            r@ == english_result(text@),
    {
        let q = lowercase(text);
        english_entries(q.as_str())
    }

    /// The entries whose Pinyin, with tone marks, tone numbers or no tones,
    /// matches the words of the lower-cased text.
    pub fn query_by_pinyin(&self, text: &str) -> (r: Vec<WordEntry>)
        ensures
            r@ == pinyin_result(text@),
    {
        let q = lowercase(text);
        pinyin_entries(q.as_str())
    }

    /// The entries whose Simplified or Traditional form is a word of the
    /// lower-cased text.
    pub fn query_by_chinese(&self, text: &str) -> (r: Vec<WordEntry>)
        ensures
            r@ == chinese_result(text@),
    {
        let q = lowercase(text);
        chinese_entries(q.as_str())
    }

    /// Classifies the lower-cased text and looks it up in the index of its
    /// script; `None` when it is of no known script.
    pub fn query(&self, text: &str) -> (r: Option<Vec<WordEntry>>)
        ensures
            match r {
                Some(v) => query_result(text@) == Some(v@),
                None => query_result(text@) is None,
            },
    {
        let q = lowercase(text);
        match classify_text(q.as_str()) {
            Script::Chinese => Some(chinese_entries(q.as_str())),
            Script::Pinyin => Some(pinyin_entries(q.as_str())),
            Script::English => Some(english_entries(q.as_str())),
            Script::Unknown => None,
        }
    }
}

/// Segmentation is a partition: the tokens are non-empty and put back
/// together give the text.
pub proof fn law_segment_partition(s: Seq<char>)
    ensures
        segmentation(s).flatten() == s,
        forall|i: int| 0 <= i < segmentation(s).len() ==> #[trigger] segmentation(s)[i].len() > 0,
{
    lemma_cover_partition(s, dictionary_words(s));
}

/// Classification is deterministic: two classifications of one text agree.
pub proof fn law_classify_deterministic(s: Seq<char>, a: Script, b: Script)
    requires
        a == script_of(s),
        b == script_of(s),
    ensures
        a == b,
{
}

/// `query` gives exactly what the lookup of the query's script gives, and no
/// result for a query of no known script.
pub proof fn law_query_dispatch(s: Seq<char>)
    ensures
        script_of(lower_of(s)) == Script::Chinese ==> query_result(s) == Some(chinese_result(s)),
        script_of(lower_of(s)) == Script::Pinyin ==> query_result(s) == Some(pinyin_result(s)),
        script_of(lower_of(s)) == Script::English ==> query_result(s) == Some(english_result(s)),
        script_of(lower_of(s)) == Script::Unknown ==> query_result(s) is None,
{
}

} // verus!
