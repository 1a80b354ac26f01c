//! The choice of analyzer, the threshold, the overrides and registration.

use pizza_analysis_auto::auto_analyzer::lang_to_code;
use pizza_analysis_auto::collections::{AnalyzerNames, OverrideMap};
use pizza_analysis_auto::detect::{
    confident_analyzer, detect_info, Detection, DEFAULT_CONFIDENCE_THRESHOLD_BITS, FALLBACK_ANALYZER,
    INFINITY_BITS, ONE_BITS, SIGN_BIT,
};
use pizza_analysis_auto::language::{Language, LANGUAGE_COUNT};
use pizza_analysis_auto::register::{captured_analyzer_names, language_analyzer_names};
use pizza_analysis_auto::{AutoTokenizer, LanguageDetectTokenFilter};

fn names(list: &[&str]) -> AnalyzerNames {
    let mut set = AnalyzerNames::new();
    for name in list {
        set.insert(name);
    }
    set
}

fn confident(language: Language) -> Option<Detection> {
    Some(Detection { language, confidence_bits: 1.0f64.to_bits() })
}

fn with_confidence(language: Language, confidence: f64) -> Option<Detection> {
    Some(Detection { language, confidence_bits: confidence.to_bits() })
}

#[test]
fn default_threshold_is_three_tenths() {
    assert_eq!(f64::from_bits(DEFAULT_CONFIDENCE_THRESHOLD_BITS), 0.3);
}

#[test]
fn float_bit_constants() {
    assert_eq!(f64::from_bits(ONE_BITS), 1.0);
    assert_eq!(f64::from_bits(INFINITY_BITS), f64::INFINITY);
    assert_eq!(SIGN_BIT, (-0.0f64).to_bits());
}

#[test]
fn fallback_analyzer_is_standard() {
    assert_eq!(FALLBACK_ANALYZER, "standard");
}

#[test]
fn language_order_matches_whatlang() {
    assert_eq!(whatlang::Lang::all().len(), LANGUAGE_COUNT as usize);
    for lang in whatlang::Lang::all() {
        let index = *lang as u8;
        let ours = Language::from_index(index).unwrap();
        assert_eq!(ours.index(), index);
        let code = lang_to_code(ours);
        if code != "und" {
            assert_eq!(code, lang.code(), "code mismatch for {:?}", lang);
        }
    }
    assert_eq!(Language::from_index(LANGUAGE_COUNT), None);
    assert_eq!(Language::from_index(255), None);
}

#[test]
fn codes_for_bokmal_and_persian() {
    assert_eq!(lang_to_code(Language::Nob), "nob");
    assert_eq!(lang_to_code(Language::Pes), "pes");
    assert_eq!(lang_to_code(Language::Cmn), "cmn");
    assert_eq!(lang_to_code(Language::Epo), "und");
}

#[test]
fn detect_info_reports_whatlang_outcome() {
    let text = "Der schnelle braune Fuchs springt über den faulen Hund";
    let info = whatlang::detect(text).unwrap();
    let ours = detect_info(text).unwrap();
    assert_eq!(ours.language, Language::Deu);
    assert_eq!(ours.language.index(), info.lang() as u8);
    assert_eq!(ours.confidence_bits, info.confidence().to_bits());
    assert_eq!(detect_info(""), None);
}

#[test]
fn confident_analyzer_follows_threshold() {
    let threshold = DEFAULT_CONFIDENCE_THRESHOLD_BITS;
    assert_eq!(confident_analyzer(with_confidence(Language::Fra, 0.3), threshold), Some("french"));
    assert_eq!(confident_analyzer(with_confidence(Language::Fra, 0.29), threshold), None);
    assert_eq!(confident_analyzer(None, threshold), None);
    assert_eq!(confident_analyzer(confident(Language::Tam), threshold), Some("tamil"));
    assert_eq!(confident_analyzer(confident(Language::Heb), threshold), Some("standard"));
    assert_eq!(confident_analyzer(confident(Language::Jpn), threshold), Some("cjk"));
}

#[test]
fn selects_default_mapping() {
    let tokenizer = AutoTokenizer::new(names(&["standard", "english", "french"]));
    assert_eq!(tokenizer.select_for_detection(confident(Language::Fra)), Some("french"));
    assert_eq!(tokenizer.select_for_detection(confident(Language::Eng)), Some("english"));
    // German is not held: fallback
    assert_eq!(tokenizer.select_for_detection(confident(Language::Deu)), None);
    // Hebrew maps to the standard analyzer by name
    assert_eq!(tokenizer.select_for_detection(confident(Language::Heb)), Some("standard"));
    assert_eq!(tokenizer.select_for_detection(None), None);
}

#[test]
fn low_confidence_falls_back() {
    let tokenizer = AutoTokenizer::new(names(&["french"]));
    assert_eq!(tokenizer.select_for_detection(with_confidence(Language::Fra, 0.1)), None);
    assert_eq!(tokenizer.select_for_detection(with_confidence(Language::Fra, 0.3)), Some("french"));
}

#[test]
fn threshold_is_clamped() {
    let mut tokenizer = AutoTokenizer::new(names(&["french"]));
    tokenizer.set_confidence_threshold(0.5f64.to_bits());
    assert_eq!(tokenizer.select_for_detection(with_confidence(Language::Fra, 0.4)), None);
    assert_eq!(tokenizer.select_for_detection(with_confidence(Language::Fra, 0.6)), Some("french"));

    tokenizer.set_confidence_threshold((-1.0f64).to_bits());
    assert_eq!(tokenizer.select_for_detection(with_confidence(Language::Fra, 0.0)), Some("french"));

    tokenizer.set_confidence_threshold((-0.0f64).to_bits());
    assert_eq!(tokenizer.select_for_detection(with_confidence(Language::Fra, 0.0)), Some("french"));

    tokenizer.set_confidence_threshold(7.0f64.to_bits());
    assert_eq!(tokenizer.select_for_detection(with_confidence(Language::Fra, 0.99)), None);
    assert_eq!(tokenizer.select_for_detection(with_confidence(Language::Fra, 1.0)), Some("french"));

    tokenizer.set_confidence_threshold(f64::INFINITY.to_bits());
    assert_eq!(tokenizer.select_for_detection(with_confidence(Language::Fra, 1.0)), Some("french"));

    tokenizer.set_confidence_threshold(f64::NAN.to_bits());
    assert_eq!(tokenizer.select_for_detection(with_confidence(Language::Fra, 1.0)), None);
    assert_eq!(tokenizer.select_for_detection(with_confidence(Language::Fra, 0.0)), None);
}

#[test]
fn override_takes_effect() {
    let mut tokenizer = AutoTokenizer::new(names(&["standard", "cjk", "jieba"]));
    assert_eq!(tokenizer.select_for_detection(confident(Language::Cmn)), Some("cjk"));
    tokenizer.set_override("cmn", "jieba");
    assert_eq!(tokenizer.select_for_detection(confident(Language::Cmn)), Some("jieba"));
    // Japanese has another code: unchanged
    assert_eq!(tokenizer.select_for_detection(confident(Language::Jpn)), Some("cjk"));
    // Overriding again replaces the earlier override
    tokenizer.set_override("cmn", "standard");
    assert_eq!(tokenizer.select_for_detection(confident(Language::Cmn)), Some("standard"));
}

#[test]
fn override_to_missing_analyzer_is_ignored() {
    let mut tokenizer = AutoTokenizer::new(names(&["cjk"]));
    tokenizer.set_override("jpn", "kuromoji");
    assert_eq!(tokenizer.select_for_detection(confident(Language::Jpn)), Some("cjk"));
}

#[test]
fn override_applies_to_unmapped_language() {
    let mut tokenizer = AutoTokenizer::new(names(&["tamil_custom"]));
    assert_eq!(tokenizer.select_for_detection(confident(Language::Tam)), None);
    tokenizer.set_override("tam", "tamil_custom");
    assert_eq!(tokenizer.select_for_detection(confident(Language::Tam)), Some("tamil_custom"));
}

#[test]
fn set_overrides_replaces_all() {
    let mut tokenizer = AutoTokenizer::new(names(&["cjk", "jieba", "english", "custom"]));
    tokenizer.set_override("cmn", "jieba");
    let mut overrides = OverrideMap::new();
    overrides.insert("eng", "custom");
    assert_eq!(overrides.get("eng"), Some("custom"));
    assert_eq!(overrides.get("cmn"), None);
    tokenizer.set_overrides(overrides);
    assert_eq!(tokenizer.select_for_detection(confident(Language::Cmn)), Some("cjk"));
    assert_eq!(tokenizer.select_for_detection(confident(Language::Eng)), Some("custom"));
}

#[test]
fn select_analyzer_on_text() {
    let tokenizer = AutoTokenizer::new(names(&["standard", "french", "english"]));
    assert_eq!(
        tokenizer.select_analyzer("Bonjour le monde, comment allez-vous aujourd'hui"),
        Some("french")
    );
    assert_eq!(tokenizer.select_analyzer(""), None);
    assert_eq!(tokenizer.select_analyzer("...!!!???---"), None);
    let empty = AutoTokenizer::new(AnalyzerNames::new());
    assert_eq!(empty.select_analyzer("Hello world, this is a simple test sentence"), None);
}

#[test]
fn analyzer_names_set() {
    let mut set = AnalyzerNames::new();
    assert!(!set.contains("english"));
    assert!(set.insert("english"));
    assert!(!set.insert("english"));
    assert!(set.contains("english"));
    assert!(!set.contains("englis"));
}

#[test]
fn language_analyzer_names_list() {
    let list = language_analyzer_names();
    assert_eq!(list.len(), 39);
    assert_eq!(list[0], "standard");
    assert_eq!(list[1], "whitespace");
    assert!(list.contains(&"cjk"));
    assert!(list.contains(&"brazilian"));
    assert!(!list.contains(&"tamil"));
    assert!(!list.contains(&"vietnamese"));
}

#[test]
fn captures_registered_names() {
    let list = language_analyzer_names();
    let registered: Vec<bool> = list.iter().map(|n| *n == "standard" || *n == "french" || *n == "cjk").collect();
    let captured = captured_analyzer_names(&registered);
    assert!(captured.contains("standard"));
    assert!(captured.contains("french"));
    assert!(captured.contains("cjk"));
    assert!(!captured.contains("english"));
    assert!(!captured.contains("whitespace"));

    // a shorter mask counts the missing entries as not registered
    let captured = captured_analyzer_names(&vec![false, true]);
    assert!(captured.contains("whitespace"));
    assert!(!captured.contains("standard"));
    assert!(!captured.contains("english"));
}

#[test]
fn uncaptured_languages_fall_back() {
    let all = vec![true; language_analyzer_names().len()];
    let tokenizer = AutoTokenizer::new(captured_analyzer_names(&all));
    assert_eq!(tokenizer.select_for_detection(confident(Language::Tam)), None);
    assert_eq!(tokenizer.select_for_detection(confident(Language::Vie)), None);
    assert_eq!(tokenizer.select_for_detection(confident(Language::Heb)), Some("standard"));
    assert_eq!(tokenizer.select_for_detection(confident(Language::Kor)), Some("cjk"));
    assert_eq!(tokenizer.select_for_detection(confident(Language::Por)), Some("portuguese"));
}

#[test]
fn full_tokenizer_agrees_with_detect_language() {
    let mut set = AnalyzerNames::new();
    for index in 0..LANGUAGE_COUNT {
        let lang = Language::from_index(index).unwrap();
        set.insert(pizza_analysis_auto::detect::whatlang_to_analyzer(lang));
    }
    let tokenizer = AutoTokenizer::new(set);
    for text in [
        "The quick brown fox jumps over the lazy dog near the river",
        "Быстрая коричневая лиса прыгает через ленивую собаку",
        "",
        "hi",
        "1234567890",
    ] {
        assert_eq!(tokenizer.select_analyzer(text), pizza_analysis_auto::detect_language(text));
    }
}

#[test]
fn lower_threshold_keeps_choice() {
    let mut tokenizer = AutoTokenizer::new(names(&["french"]));
    tokenizer.set_confidence_threshold(0.8f64.to_bits());
    let detection = with_confidence(Language::Fra, 0.9);
    let before = tokenizer.select_for_detection(detection).map(|s| s.to_string());
    tokenizer.set_confidence_threshold(0.2f64.to_bits());
    assert_eq!(tokenizer.select_for_detection(detection).map(|s| s.to_string()), before);
}

#[test]
fn token_filter_constructors() {
    assert_eq!(LanguageDetectTokenFilter::new(), LanguageDetectTokenFilter::default());
}

#[test]
fn clone_is_independent() {
    let mut tokenizer = AutoTokenizer::new(names(&["cjk", "jieba"]));
    let copy = tokenizer.clone();
    tokenizer.set_override("cmn", "jieba");
    assert_eq!(tokenizer.select_for_detection(confident(Language::Cmn)), Some("jieba"));
    assert_eq!(copy.select_for_detection(confident(Language::Cmn)), Some("cjk"));
    let set = names(&["a"]);
    let mut other = set.clone();
    other.insert("b");
    assert!(!set.contains("b"));
    assert!(other.contains("a") && other.contains("b"));
}

#[test]
fn codes_are_distinct_lowercase_triples() {
    let mut seen: Vec<&str> = Vec::new();
    let mut undetermined = 0;
    for index in 0..LANGUAGE_COUNT {
        let code = lang_to_code(Language::from_index(index).unwrap());
        assert_eq!(code.len(), 3);
        assert!(code.chars().all(|c| c.is_ascii_lowercase()));
        if code == "und" {
            undetermined += 1;
        } else {
            assert!(!seen.contains(&code), "duplicate code {}", code);
            seen.push(code);
        }
    }
    assert_eq!(seen.len(), 54);
    assert_eq!(undetermined, 15);
}

#[test]
fn override_keyed_by_whatlang_code() {
    let mut tokenizer = AutoTokenizer::new(names(&["norwegian", "custom", "persian"]));
    tokenizer.set_override(whatlang::Lang::Nob.code(), "custom");
    assert_eq!(tokenizer.select_for_detection(confident(Language::Nob)), Some("custom"));
    tokenizer.set_override(whatlang::Lang::Pes.code(), "custom");
    assert_eq!(tokenizer.select_for_detection(confident(Language::Pes)), Some("custom"));
}

#[test]
fn threshold_extremes() {
    let mut tokenizer = AutoTokenizer::new(names(&["french"]));
    tokenizer.set_confidence_threshold(0.0f64.to_bits());
    assert_eq!(tokenizer.select_for_detection(with_confidence(Language::Fra, 0.0)), Some("french"));
    tokenizer.set_confidence_threshold(1.0f64.to_bits());
    assert_eq!(tokenizer.select_for_detection(with_confidence(Language::Fra, 0.999)), None);
    assert_eq!(tokenizer.select_for_detection(with_confidence(Language::Fra, 1.0)), Some("french"));
}

#[test]
fn detected_confidence_is_at_most_one() {
    for text in ["Hello world, this is a test", "你好世界", "こんにちは世界", "Привет мир", "hi", "1234 abc"] {
        if let Some(d) = detect_info(text) {
            assert!(d.confidence_bits <= ONE_BITS);
            let c = f64::from_bits(d.confidence_bits);
            assert!((0.0..=1.0).contains(&c));
        }
    }
}
