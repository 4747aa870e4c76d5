//! The calls into the bundled dictionary and into std that the engine relies on.
use crate::entry::Script;
use crate::entry as rec;
use crate::segment::texts;
use chinese_dictionary::MeasureWord as DictMeasureWord;
use chinese_dictionary::WordEntry as DictEntry;
use vstd::prelude::*;

verus! {

#[verifier::external_type_specification]
#[verifier::external_body]
pub struct ExWordEntry(DictEntry);

#[verifier::external_type_specification]
#[verifier::external_body]
pub struct ExMeasureWord(DictMeasureWord);

/// The script that the dictionary's classifier assigns to a text.
pub uninterp spec fn script_of(s: Seq<char>) -> Script;

/// The dictionary's character-by-character conversion to Simplified forms.
pub uninterp spec fn simplified_form(s: Seq<char>) -> Seq<char>;

/// The dictionary's character-by-character conversion to Traditional forms.
pub uninterp spec fn traditional_form(s: Seq<char>) -> Seq<char>;

/// Whether no character of the text has only a Traditional form.
pub uninterp spec fn reads_simplified(s: Seq<char>) -> bool;

/// Whether no character of the text has only a Simplified form.
pub uninterp spec fn reads_traditional(s: Seq<char>) -> bool;

/// The dictionary words found in a text by greedy longest match, in order.
pub uninterp spec fn dictionary_words(s: Seq<char>) -> Seq<Seq<char>>;

/// The entries that the English gloss index gives for a query.
pub uninterp spec fn english_lookup(q: Seq<char>) -> Seq<rec::WordEntry>;

/// The entries that the Pinyin index gives for a query.
pub uninterp spec fn pinyin_lookup(q: Seq<char>) -> Seq<rec::WordEntry>;

/// The entries that the Simplified and Traditional indices give for a query.
pub uninterp spec fn chinese_lookup(q: Seq<char>) -> Seq<rec::WordEntry>;

/// The lower-case form of a text.
pub uninterp spec fn lower_of(s: Seq<char>) -> Seq<char>;

/// Relies on chinese_dictionary::init: loads the dictionary's tables once;
/// further calls do nothing.
#[verifier::external_body]
pub(crate) fn load_tables() {
    chinese_dictionary::init()
}

/// Relies on chinese_dictionary::classify: a function of the text alone, which
/// gives the uncertain result on a text that is empty.
#[verifier::external_body]
pub(crate) fn classify_text(s: &str) -> (r: Script)
    ensures
        r == script_of(s@),
        s@.len() == 0 ==> r == Script::Unknown,
{
    match chinese_dictionary::classify(s) {
        chinese_dictionary::ClassificationResult::ZH => Script::Chinese,
        chinese_dictionary::ClassificationResult::PY => Script::Pinyin,
        chinese_dictionary::ClassificationResult::EN => Script::English,
        chinese_dictionary::ClassificationResult::UN => Script::Unknown,
    }
}

/// Relies on chinese_dictionary::traditional_to_simplified: a function of the
/// text alone; the empty text stays empty.
#[verifier::external_body]
pub(crate) fn simplify(s: &str) -> (r: String)
    ensures
        r@ == simplified_form(s@),
        s@.len() == 0 ==> r@.len() == 0,
{
    chinese_dictionary::traditional_to_simplified(s).into_owned()
}

/// Relies on chinese_dictionary::simplified_to_traditional: a function of the
/// text alone; the empty text stays empty.
#[verifier::external_body]
pub(crate) fn traditionalize(s: &str) -> (r: String)
    ensures
        r@ == traditional_form(s@),
        s@.len() == 0 ==> r@.len() == 0,
{
    chinese_dictionary::simplified_to_traditional(s).into_owned()
}

/// Relies on chinese_dictionary::is_simplified: a function of the text alone,
/// true of the empty text.
#[verifier::external_body]
pub(crate) fn simplified_check(s: &str) -> (r: bool)
    ensures
        r == reads_simplified(s@),
        s@.len() == 0 ==> r,
{
    chinese_dictionary::is_simplified(s)
}

/// Relies on chinese_dictionary::is_traditional: a function of the text alone,
/// true of the empty text.
#[verifier::external_body]
pub(crate) fn traditional_check(s: &str) -> (r: bool)
    ensures
        r == reads_traditional(s@),
        s@.len() == 0 ==> r,
{
    chinese_dictionary::is_traditional(s)
}

/// Relies on chinese_dictionary::tokenize: the dictionary words of the text,
/// as a function of the text alone.
#[verifier::external_body]
pub(crate) fn find_words(s: &str) -> (r: Vec<String>)
    ensures
        texts(r@) == dictionary_words(s@),
{
    chinese_dictionary::tokenize(s).into_iter().map(|w| w.to_owned()).collect()
}

/// Copies a measure word of the dictionary into the library's record.
#[verifier::external_body]
fn copy_measure_word(m: &DictMeasureWord) -> rec::MeasureWord {
    rec::MeasureWord {
        traditional: m.traditional.clone(),
        simplified: m.simplified.clone(),
        pinyin_marks: m.pinyin_marks.clone(),
        pinyin_numbers: m.pinyin_numbers.clone(),
    }
}

/// Copies an entry of the dictionary into the library's record.
#[verifier::external_body]
fn copy_entry(e: &DictEntry) -> rec::WordEntry {
    rec::WordEntry {
        traditional: e.traditional.clone(),
        simplified: e.simplified.clone(),
        pinyin_marks: e.pinyin_marks.clone(),
        pinyin_numbers: e.pinyin_numbers.clone(),
        english: e.english.clone(),
        tone_marks: e.tone_marks.clone(),
        hash: e.hash,
        measure_words: e.measure_words.iter().map(copy_measure_word).collect(),
        hsk: e.hsk,
        word_id: e.word_id,
    }
}

/// Relies on chinese_dictionary::query_by_english: the entries of the English
/// index for the query, as a function of the query alone.
#[verifier::external_body]
pub(crate) fn english_entries(q: &str) -> (r: Vec<rec::WordEntry>)
    ensures
        r@ == english_lookup(q@),
{
    chinese_dictionary::query_by_english(q).into_iter().map(copy_entry).collect()
}

/// Relies on chinese_dictionary::query_by_pinyin: the entries of the Pinyin
/// index for the query, as a function of the query alone.
#[verifier::external_body]
pub(crate) fn pinyin_entries(q: &str) -> (r: Vec<rec::WordEntry>)
    ensures
        r@ == pinyin_lookup(q@),
{
    chinese_dictionary::query_by_pinyin(q).into_iter().map(copy_entry).collect()
}

/// Relies on chinese_dictionary::query_by_chinese: the entries of the
/// Simplified and Traditional indices for the words of the query, as a
/// function of the query alone.
#[verifier::external_body]
pub(crate) fn chinese_entries(q: &str) -> (r: Vec<rec::WordEntry>)
    ensures
        r@ == chinese_lookup(q@),
{
    chinese_dictionary::query_by_chinese(q).into_iter().map(copy_entry).collect()
}

/// Relies on str::to_lowercase: the result depends on the characters alone;
/// the empty text stays empty.
#[verifier::external_body]
pub(crate) fn lowercase(s: &str) -> (r: String)
    ensures
        r@ == lower_of(s@),
        s@.len() == 0 ==> r@.len() == 0,
{
    s.to_lowercase()
}

} // verus!
