use chinese_lexicon::{cover_with_words, Lexicon, Script, WordEntry};

fn strings(v: &[&str]) -> Vec<String> {
    v.iter().map(|s| s.to_string()).collect()
}

fn has_form(entries: &[WordEntry], simplified: &str) -> bool {
    entries.iter().any(|e| e.simplified == simplified)
}

#[test]
fn segment_prefers_longest_word() {
    let lex = Lexicon::initialize();
    let tokens = lex.segment("我是学生");
    assert_eq!(tokens, strings(&["我", "是", "学生"]));
    assert_eq!(tokens.concat(), "我是学生");
}

#[test]
fn segment_keeps_characters_outside_the_dictionary() {
    let lex = Lexicon::initialize();
    let text = "今天天气不错。Hi!";
    let tokens = lex.segment(text);
    assert_eq!(tokens.concat(), text);
    assert!(tokens.iter().all(|t| !t.is_empty()));
    assert!(tokens.contains(&"。".to_string()));
    assert!(tokens.contains(&"今天".to_string()));
}

#[test]
fn segment_of_empty_text_is_empty() {
    let lex = Lexicon::initialize();
    assert!(lex.segment("").is_empty());
}

#[test]
fn cover_fills_gaps_between_words() {
    let words = strings(&["学生", "好"]);
    let tokens = cover_with_words("a学生,好", &words);
    assert_eq!(tokens, strings(&["a", "学生", ",", "好"]));
}

#[test]
fn cover_skips_empty_words() {
    let words = strings(&["", "ab"]);
    assert_eq!(cover_with_words("abc", &words), strings(&["ab", "c"]));
}

#[test]
fn cover_without_words_gives_single_characters() {
    assert_eq!(cover_with_words("你好", &vec![]), strings(&["你", "好"]));
    assert!(cover_with_words("", &strings(&["x"])).is_empty());
}

#[test]
fn cover_passes_over_a_word_that_does_not_fit() {
    let words = strings(&["bcd"]);
    assert_eq!(cover_with_words("abc", &words), strings(&["a", "b", "c"]));
}

#[test]
fn classify_chinese() {
    let lex = Lexicon::initialize();
    assert_eq!(lex.classify("你好"), Script::Chinese);
}

#[test]
fn classify_pinyin() {
    let lex = Lexicon::initialize();
    assert_eq!(lex.classify("ni3 hao3"), Script::Pinyin);
}

#[test]
fn classify_english() {
    let lex = Lexicon::initialize();
    assert_eq!(lex.classify("hello"), Script::English);
}

#[test]
fn classify_empty_is_unknown() {
    let lex = Lexicon::initialize();
    assert_eq!(lex.classify(""), Script::Unknown);
}

#[test]
fn classify_twice_agrees() {
    let lex = Lexicon::initialize();
    for text in ["你好", "ni3 hao3", "hello", "", "?!"] {
        assert_eq!(lex.classify(text), lex.classify(text));
    }
}

#[test]
fn script_codes() {
    assert_eq!(Script::Chinese.code(), "ZH");
    assert_eq!(Script::Pinyin.code(), "PY");
    assert_eq!(Script::English.code(), "EN");
    assert_eq!(Script::Unknown.code(), "UN");
}

#[test]
fn convert_between_scripts() {
    let lex = Lexicon::initialize();
    assert_eq!(lex.convert_to_simplified("簡體字"), "简体字");
    assert_eq!(lex.convert_to_traditional("繁体字"), "繁體字");
    assert_eq!(lex.convert_to_simplified("歐洲 abc 123"), "欧洲 abc 123");
    assert_eq!(lex.convert_to_simplified(""), "");
    assert_eq!(lex.convert_to_traditional(""), "");
}

#[test]
fn convert_twice_changes_nothing_more() {
    let lex = Lexicon::initialize();
    for text in ["簡體字", "繁体字", "歐洲", "hello"] {
        let s = lex.convert_to_simplified(text);
        assert_eq!(lex.convert_to_simplified(&s), s);
    }
    for text in ["欧洲", "hello"] {
        let t = lex.convert_to_traditional(text);
        assert_eq!(lex.convert_to_traditional(&t), t);
    }
}

#[test]
fn traditional_round_trip() {
    let lex = Lexicon::initialize();
    let s = lex.convert_to_simplified("歐洲");
    let back = lex.convert_to_simplified(&lex.convert_to_traditional(&s));
    assert_eq!(back, s);
}

#[test]
fn script_membership() {
    let lex = Lexicon::initialize();
    assert!(lex.is_simplified("欧洲"));
    assert!(!lex.is_simplified("歐洲"));
    assert!(lex.is_traditional("歐洲"));
    assert!(!lex.is_traditional("欧洲"));
    assert!(lex.is_simplified(""));
    assert!(lex.is_traditional(""));
}

#[test]
fn english_query_matches_glosses() {
    let lex = Lexicon::initialize();
    let entries = lex.query_by_english("hello");
    assert!(!entries.is_empty());
    for e in &entries {
        assert!(e.english.iter().any(|g| g.to_lowercase().contains("hello")));
        assert!(!e.pinyin_marks.is_empty());
        assert!(!e.traditional.is_empty());
        assert!(!e.simplified.is_empty());
    }
}

#[test]
fn english_query_first_result() {
    let lex = Lexicon::initialize();
    let entries = lex.query_by_english("Watermelon");
    assert_eq!(entries.first().unwrap().traditional, "西瓜");
}

#[test]
fn pinyin_query_finds_word() {
    let lex = Lexicon::initialize();
    let entries = lex.query_by_pinyin("ni3 hao3");
    assert!(has_form(&entries, "你"));
    assert!(has_form(&entries, "好"));
    assert!(entries.iter().all(|e| !e.pinyin_numbers.is_empty()));
    assert!(lex.query_by_pinyin("").is_empty());
}

#[test]
fn chinese_query_finds_word() {
    let lex = Lexicon::initialize();
    assert!(has_form(&lex.query_by_chinese("你好"), "你好"));
    let traditional = lex.query_by_chinese("繁體字");
    assert_eq!(traditional.first().unwrap().english.first().unwrap(), "traditional Chinese character");
}

#[test]
fn query_routes_chinese() {
    let lex = Lexicon::initialize();
    assert_eq!(lex.query("你好"), Some(lex.query_by_chinese("你好")));
}

#[test]
fn query_routes_english_after_lowercasing() {
    let lex = Lexicon::initialize();
    let upper = lex.query("HELLO").unwrap();
    assert_eq!(upper, lex.query_by_english("hello"));
    assert!(!upper.is_empty());
}

#[test]
fn chinese_query_ignores_letter_case() {
    let lex = Lexicon::initialize();
    assert_eq!(lex.query_by_chinese("T恤"), lex.query_by_chinese("t恤"));
    assert_eq!(lex.query_by_english("WATERMELON"), lex.query_by_english("watermelon"));
}

#[test]
fn query_of_empty_text_is_no_result() {
    let lex = Lexicon::initialize();
    assert_eq!(lex.query(""), None);
}

#[test]
fn initialize_twice_is_harmless() {
    let first = Lexicon::initialize();
    let second = Lexicon::initialize();
    assert_eq!(first.classify("你好"), second.classify("你好"));
}
