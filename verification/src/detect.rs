//! Language detection with whatlang, and the analyzer that serves each
//! detected language.

use vstd::prelude::*;

use crate::language::{language_at, language_index, lemma_language_positions, Language, LANGUAGE_COUNT};

verus! {

/// The analyzer used when detection fails or is not confident enough.
pub const FALLBACK_ANALYZER: &'static str = "standard";

/// The default confidence threshold, three tenths, as the IEEE-754 bits of
/// the `f64` closest to it.
///
/// Confidences and thresholds are handled as the bits of their `f64` values:
/// for values in `[0, 1]` (where whatlang's confidences and the clamped
/// thresholds lie) the order of the bits, read as unsigned integers, is the
/// order of the numbers.
pub const DEFAULT_CONFIDENCE_THRESHOLD_BITS: u64 = 0x3FD3_3333_3333_3333;

/// The sign bit of an `f64`.
pub const SIGN_BIT: u64 = 0x8000_0000_0000_0000;

/// The bits of the `f64` one.
pub const ONE_BITS: u64 = 0x3FF0_0000_0000_0000;

/// The bits of the `f64` positive infinity.
pub const INFINITY_BITS: u64 = 0x7FF0_0000_0000_0000;

/// The name of the analyzer registered for `lang`.
pub open spec fn analyzer_for(lang: Language) -> Seq<char> {
    match lang {
        Language::Eng => "english"@,
        Language::Fra => "french"@,
        Language::Deu => "german"@,
        Language::Spa => "spanish"@,
        Language::Ita => "italian"@,
        Language::Por => "portuguese"@,
        Language::Nld => "dutch"@,
        Language::Swe => "swedish"@,
        Language::Fin => "finnish"@,
        Language::Dan => "danish"@,
        Language::Nob => "norwegian"@,
        Language::Hun => "hungarian"@,
        Language::Ron => "romanian"@,
        Language::Cat => "catalan"@,
        Language::Pol => "polish"@,
        Language::Ces => "czech"@,
        Language::Slk => "slovak"@,
        Language::Slv => "slovenian"@,
        Language::Hrv => "croatian"@,
        Language::Srp => "serbian"@,
        Language::Bul => "bulgarian"@,
        Language::Lit => "lithuanian"@,
        Language::Lav => "latvian"@,
        Language::Est => "estonian"@,
        Language::Rus => "russian"@,
        Language::Ukr => "ukrainian"@,
        Language::Ell => "greek"@,
        Language::Tur => "turkish"@,
        Language::Aze => "azerbaijani"@,
        Language::Hin => "hindi"@,
        Language::Ben => "bengali"@,
        Language::Mar => "hindi"@,
        Language::Nep => "hindi"@,
        Language::Tam => "tamil"@,
        Language::Tel => "telugu"@,
        Language::Kan => "kannada"@,
        Language::Mal => "malayalam"@,
        Language::Guj => "standard"@,
        Language::Pan => "standard"@,
        Language::Sin => "standard"@,
        Language::Urd => "standard"@,
        Language::Ind => "indonesian"@,
        Language::Tgl => "standard"@,
        Language::Vie => "vietnamese"@,
        Language::Tha => "thai"@,
        Language::Khm => "standard"@,
        Language::Mya => "standard"@,
        Language::Cmn => "cjk"@,
        Language::Jpn => "cjk"@,
        Language::Kor => "cjk"@,
        Language::Ara => "arabic"@,
        Language::Pes => "persian"@,
        Language::Heb => "standard"@,
        Language::Amh => "standard"@,
        _ => FALLBACK_ANALYZER@,
    }
}

/// Map a detected language to the name of the analyzer registered for it in
/// the analysis factory; languages without an analyzer of their own get
/// `FALLBACK_ANALYZER`.
pub fn whatlang_to_analyzer(lang: Language) -> (r: &'static str)
    ensures
        r@ == analyzer_for(lang),
{
    match lang {
        Language::Eng => "english",
        Language::Fra => "french",
        Language::Deu => "german",
        Language::Spa => "spanish",
        Language::Ita => "italian",
        Language::Por => "portuguese",
        Language::Nld => "dutch",
        Language::Swe => "swedish",
        Language::Fin => "finnish",
        Language::Dan => "danish",
        Language::Nob => "norwegian",
        Language::Hun => "hungarian",
        Language::Ron => "romanian",
        Language::Cat => "catalan",
        Language::Pol => "polish",
        Language::Ces => "czech",
        Language::Slk => "slovak",
        Language::Slv => "slovenian",
        Language::Hrv => "croatian",
        Language::Srp => "serbian",
        Language::Bul => "bulgarian",
        Language::Lit => "lithuanian",
        Language::Lav => "latvian",
        Language::Est => "estonian",
        Language::Rus => "russian",
        Language::Ukr => "ukrainian",
        Language::Ell => "greek",
        Language::Tur => "turkish",
        Language::Aze => "azerbaijani",
        Language::Hin => "hindi",
        Language::Ben => "bengali",
        Language::Mar => "hindi",
        Language::Nep => "hindi",
        Language::Tam => "tamil",
        Language::Tel => "telugu",
        Language::Kan => "kannada",
        Language::Mal => "malayalam",
        Language::Guj => "standard",
        Language::Pan => "standard",
        Language::Sin => "standard",
        Language::Urd => "standard",
        Language::Ind => "indonesian",
        Language::Tgl => "standard",
        Language::Vie => "vietnamese",
        Language::Tha => "thai",
        Language::Khm => "standard",
        Language::Mya => "standard",
        Language::Cmn => "cjk",
        Language::Jpn => "cjk",
        Language::Kor => "cjk",
        Language::Ara => "arabic",
        Language::Pes => "persian",
        Language::Heb => "standard",
        Language::Amh => "standard",
        _ => FALLBACK_ANALYZER,
    }
}

/// The analyzer of every language: each language with an analyzer of its own
/// gets that analyzer's registered name, every other language gets
/// `"standard"`.
pub proof fn lemma_analyzer_of_each_language()
    ensures
        analyzer_for(Language::Epo) == "standard"@,
        analyzer_for(Language::Eng) == "english"@,
        analyzer_for(Language::Rus) == "russian"@,
        analyzer_for(Language::Cmn) == "cjk"@,
        analyzer_for(Language::Spa) == "spanish"@,
        analyzer_for(Language::Por) == "portuguese"@,
        analyzer_for(Language::Ita) == "italian"@,
        analyzer_for(Language::Ben) == "bengali"@,
        analyzer_for(Language::Fra) == "french"@,
        analyzer_for(Language::Deu) == "german"@,
        analyzer_for(Language::Ukr) == "ukrainian"@,
        analyzer_for(Language::Kat) == "standard"@,
        analyzer_for(Language::Ara) == "arabic"@,
        analyzer_for(Language::Hin) == "hindi"@,
        analyzer_for(Language::Jpn) == "cjk"@,
        analyzer_for(Language::Heb) == "standard"@,
        analyzer_for(Language::Yid) == "standard"@,
        analyzer_for(Language::Pol) == "polish"@,
        analyzer_for(Language::Amh) == "standard"@,
        analyzer_for(Language::Jav) == "standard"@,
        analyzer_for(Language::Kor) == "cjk"@,
        analyzer_for(Language::Nob) == "norwegian"@,
        analyzer_for(Language::Dan) == "danish"@,
        analyzer_for(Language::Swe) == "swedish"@,
        analyzer_for(Language::Fin) == "finnish"@,
        analyzer_for(Language::Tur) == "turkish"@,
        analyzer_for(Language::Nld) == "dutch"@,
        analyzer_for(Language::Hun) == "hungarian"@,
        analyzer_for(Language::Ces) == "czech"@,
        analyzer_for(Language::Ell) == "greek"@,
        analyzer_for(Language::Bul) == "bulgarian"@,
        analyzer_for(Language::Bel) == "standard"@,
        analyzer_for(Language::Mar) == "hindi"@,
        analyzer_for(Language::Kan) == "kannada"@,
        analyzer_for(Language::Ron) == "romanian"@,
        analyzer_for(Language::Slv) == "slovenian"@,
        analyzer_for(Language::Hrv) == "croatian"@,
        analyzer_for(Language::Srp) == "serbian"@,
        analyzer_for(Language::Mkd) == "standard"@,
        analyzer_for(Language::Lit) == "lithuanian"@,
        analyzer_for(Language::Lav) == "latvian"@,
        analyzer_for(Language::Est) == "estonian"@,
        analyzer_for(Language::Tam) == "tamil"@,
        analyzer_for(Language::Vie) == "vietnamese"@,
        analyzer_for(Language::Urd) == "standard"@,
        analyzer_for(Language::Tha) == "thai"@,
        analyzer_for(Language::Guj) == "standard"@,
        analyzer_for(Language::Uzb) == "standard"@,
        analyzer_for(Language::Pan) == "standard"@,
        analyzer_for(Language::Aze) == "azerbaijani"@,
        analyzer_for(Language::Ind) == "indonesian"@,
        analyzer_for(Language::Tel) == "telugu"@,
        analyzer_for(Language::Pes) == "persian"@,
        analyzer_for(Language::Mal) == "malayalam"@,
        analyzer_for(Language::Ori) == "standard"@,
        analyzer_for(Language::Mya) == "standard"@,
        analyzer_for(Language::Nep) == "hindi"@,
        analyzer_for(Language::Sin) == "standard"@,
        analyzer_for(Language::Khm) == "standard"@,
        analyzer_for(Language::Tuk) == "standard"@,
        analyzer_for(Language::Aka) == "standard"@,
        analyzer_for(Language::Zul) == "standard"@,
        analyzer_for(Language::Sna) == "standard"@,
        analyzer_for(Language::Afr) == "standard"@,
        analyzer_for(Language::Lat) == "standard"@,
        analyzer_for(Language::Slk) == "slovak"@,
        analyzer_for(Language::Cat) == "catalan"@,
        analyzer_for(Language::Tgl) == "standard"@,
        analyzer_for(Language::Hye) == "standard"@,
{
}

/// The detection made from whatlang's answer holds the very language whatlang
/// named (the one at its discriminant) and the very confidence it gave; an
/// empty answer, or a discriminant no language has, gives no detection.
pub proof fn lemma_detection_keeps_verdict(verdict: Option<(u8, u64)>)
    ensures
        match verdict {
            Some((index, confidence_bits)) => if index < LANGUAGE_COUNT {
                detection_from_verdict(verdict) matches Some(d) && language_index(d.language) == index
                    && d.confidence_bits == confidence_bits
            } else {
                detection_from_verdict(verdict) is None
            },
            None => detection_from_verdict(verdict) is None,
        },
{
    if let Some((index, _)) = verdict {
        lemma_language_positions(Language::Epo, index);
    }
}

/// What whatlang's `detect` makes of a text: the detected `Lang` as its
/// discriminant, with the IEEE-754 bits of the confidence; `None` when
/// whatlang detects nothing.
pub uninterp spec fn whatlang_verdict(text: Seq<char>) -> Option<(u8, u64)>;

/// Calls `whatlang::detect`. Its result is named `whatlang_verdict` of the
/// text's characters: the detected `Lang` is handed back as its discriminant,
/// the confidence as the bits of its `f64`. Beyond the name, the contract
/// states two facts: the discriminant is below the number of languages, as the
/// declaration of `Lang` (discriminants `0..=68`) shows; and the confidence
/// lies in `[0, 1]` (its bits are at most those of one), as whatlang's
/// `calculate_confidence` and the fixed confidences in `detect` show.
#[verifier::external_body]
fn whatlang_detect(text: &str) -> (r: Option<(u8, u64)>)
    ensures
        r == whatlang_verdict(text@),
        r matches Some((index, _)) ==> index < LANGUAGE_COUNT,
        r matches Some((_, confidence_bits)) ==> confidence_bits <= ONE_BITS,
{
    match whatlang::detect(text) {
        Some(info) => Some((info.lang() as u8, info.confidence().to_bits())),
        None => None,
    }
}

/// A detected language with the confidence of the detection (as the bits of
/// its `f64`).
#[derive(Clone, Copy, Debug, PartialEq, Eq, Structural)]
pub struct Detection {
    pub language: Language,
    pub confidence_bits: u64,
}

/// The detection that a verdict of whatlang stands for.
pub open spec fn detection_from_verdict(verdict: Option<(u8, u64)>) -> Option<Detection> {
    match verdict {
        Some((index, confidence_bits)) => match language_at(index) {
            Some(language) => Some(Detection { language, confidence_bits }),
            None => None,
        },
        None => None,
    }
}

/// Whether a detection reaches a threshold (both as `f64` bits).
pub open spec fn reaches(detection: Detection, threshold_bits: u64) -> bool {
    detection.confidence_bits >= threshold_bits
}

/// The analyzer name for a detection: the one registered for the detected
/// language when the detection reaches the threshold, `None` otherwise.
pub open spec fn confident_analyzer_for(detection: Option<Detection>, threshold_bits: u64) -> Option<Seq<char>> {
    match detection {
        Some(d) => if reaches(d, threshold_bits) {
            Some(analyzer_for(d.language))
        } else {
            None
        },
        None => None,
    }
}

/// The characters of an optional string.
pub open spec fn str_option_view(s: Option<&str>) -> Option<Seq<char>> {
    match s {
        Some(s) => Some(s@),
        None => None,
    }
}

impl Detection {
    /// Turn a verdict of whatlang into a detection.
    pub fn from_verdict(verdict: Option<(u8, u64)>) -> (r: Option<Detection>)
        ensures
            r == detection_from_verdict(verdict),
    {
        match verdict {
            Some((index, confidence_bits)) => match Language::from_index(index) {
                Some(language) => Some(Detection { language, confidence_bits }),
                None => None,
            },
            None => None,
        }
    }
}

/// Detect the language of `text` with whatlang, with the confidence of the
/// detection; `None` when whatlang detects nothing.
pub fn detect_info(text: &str) -> (r: Option<Detection>)
    ensures
        r == detection_from_verdict(whatlang_verdict(text@)),
        r is Some <==> whatlang_verdict(text@) is Some,
        r matches Some(d) ==> d.confidence_bits <= ONE_BITS,
{
    let verdict = whatlang_detect(text);
    Detection::from_verdict(verdict)
}

/// The analyzer name for a detection: the one registered for the detected
/// language when the confidence reaches `threshold_bits`, `None` when there
/// is no detection or it is not confident enough.
pub fn confident_analyzer(detection: Option<Detection>, threshold_bits: u64) -> (r: Option<&'static str>)
    ensures
        str_option_view(r) == confident_analyzer_for(detection, threshold_bits),
{
    match detection {
        Some(d) => if d.confidence_bits >= threshold_bits {
            Some(whatlang_to_analyzer(d.language))
        } else {
            None
        },
        None => None,
    }
}

/// Detect the language of `text` and return the name of its analyzer.
///
/// Returns `None` when whatlang detects nothing or its confidence is below
/// the default threshold (`DEFAULT_CONFIDENCE_THRESHOLD_BITS`).
pub fn detect_language(text: &str) -> (r: Option<&'static str>)
    ensures
        str_option_view(r) == confident_analyzer_for(
            detection_from_verdict(whatlang_verdict(text@)),
            DEFAULT_CONFIDENCE_THRESHOLD_BITS,
        ),
{
    let detection = detect_info(text);
    confident_analyzer(detection, DEFAULT_CONFIDENCE_THRESHOLD_BITS)
}

/// A token filter that leaves every token as it is: language detection
/// happens in `AutoTokenizer`; the filter is there for custom pipelines.
#[derive(Clone, Copy, Debug, PartialEq, Eq, Structural)]
pub struct LanguageDetectTokenFilter;

impl LanguageDetectTokenFilter {
    pub fn new() -> (r: Self)
        ensures
            r == LanguageDetectTokenFilter,
    {
        LanguageDetectTokenFilter
    }
}

impl Default for LanguageDetectTokenFilter {
    fn default() -> (r: Self)
        ensures
            r == LanguageDetectTokenFilter,
    {
        LanguageDetectTokenFilter
    }
}

} // verus!
