//! `AutoTokenizer`: the choice, for each text, of the analyzer whose whole
//! pipeline tokenizes it.
//!
//! The analyzers themselves (pipelines of the analysis engine) stay with the
//! caller; the tokenizer keeps their names, the per-language overrides and the
//! confidence threshold, and tells for a text which named analyzer to run, or
//! that the fallback analyzer is to run.

use vstd::prelude::*;

use crate::collections::{analyzer_names_of, no_overrides, override_entries, AnalyzerNames, OverrideMap};
use crate::detect::{
    analyzer_for, confident_analyzer_for, detect_info, detection_from_verdict, reaches, str_option_view, whatlang_to_analyzer,
    whatlang_verdict, Detection, DEFAULT_CONFIDENCE_THRESHOLD_BITS, INFINITY_BITS, ONE_BITS, SIGN_BIT,
};
use crate::language::Language;

verus! {

/// The language code under which overrides for `lang` are looked up.
pub open spec fn code_for(lang: Language) -> Seq<char> {
    match lang {
        Language::Eng => "eng"@,
        Language::Fra => "fra"@,
        Language::Deu => "deu"@,
        Language::Spa => "spa"@,
        Language::Ita => "ita"@,
        Language::Por => "por"@,
        Language::Nld => "nld"@,
        Language::Swe => "swe"@,
        Language::Fin => "fin"@,
        Language::Dan => "dan"@,
        Language::Nob => "nob"@,
        Language::Hun => "hun"@,
        Language::Ron => "ron"@,
        Language::Cat => "cat"@,
        Language::Pol => "pol"@,
        Language::Ces => "ces"@,
        Language::Slk => "slk"@,
        Language::Slv => "slv"@,
        Language::Hrv => "hrv"@,
        Language::Srp => "srp"@,
        Language::Bul => "bul"@,
        Language::Lit => "lit"@,
        Language::Lav => "lav"@,
        Language::Est => "est"@,
        Language::Rus => "rus"@,
        Language::Ukr => "ukr"@,
        Language::Ell => "ell"@,
        Language::Tur => "tur"@,
        Language::Aze => "aze"@,
        Language::Hin => "hin"@,
        Language::Ben => "ben"@,
        Language::Mar => "mar"@,
        Language::Nep => "nep"@,
        Language::Tam => "tam"@,
        Language::Tel => "tel"@,
        Language::Kan => "kan"@,
        Language::Mal => "mal"@,
        Language::Guj => "guj"@,
        Language::Pan => "pan"@,
        Language::Sin => "sin"@,
        Language::Urd => "urd"@,
        Language::Ind => "ind"@,
        Language::Tgl => "tgl"@,
        Language::Vie => "vie"@,
        Language::Tha => "tha"@,
        Language::Khm => "khm"@,
        Language::Mya => "mya"@,
        Language::Cmn => "cmn"@,
        Language::Jpn => "jpn"@,
        Language::Kor => "kor"@,
        Language::Ara => "ara"@,
        Language::Pes => "pes"@,
        Language::Heb => "heb"@,
        Language::Amh => "amh"@,
        _ => "und"@,
    }
}

/// Convert a language to its ISO 639-3 code, the key of the override map
/// (for example `"cmn"` for Chinese, `"jpn"` for Japanese, `"eng"` for
/// English); languages without a code here get `"und"` (undetermined).
pub fn lang_to_code(lang: Language) -> (r: &'static str)
    ensures
        r@ == code_for(lang),
{
    match lang {
        Language::Eng => "eng",
        Language::Fra => "fra",
        Language::Deu => "deu",
        Language::Spa => "spa",
        Language::Ita => "ita",
        Language::Por => "por",
        Language::Nld => "nld",
        Language::Swe => "swe",
        Language::Fin => "fin",
        Language::Dan => "dan",
        Language::Nob => "nob",
        Language::Hun => "hun",
        Language::Ron => "ron",
        Language::Cat => "cat",
        Language::Pol => "pol",
        Language::Ces => "ces",
        Language::Slk => "slk",
        Language::Slv => "slv",
        Language::Hrv => "hrv",
        Language::Srp => "srp",
        Language::Bul => "bul",
        Language::Lit => "lit",
        Language::Lav => "lav",
        Language::Est => "est",
        Language::Rus => "rus",
        Language::Ukr => "ukr",
        Language::Ell => "ell",
        Language::Tur => "tur",
        Language::Aze => "aze",
        Language::Hin => "hin",
        Language::Ben => "ben",
        Language::Mar => "mar",
        Language::Nep => "nep",
        Language::Tam => "tam",
        Language::Tel => "tel",
        Language::Kan => "kan",
        Language::Mal => "mal",
        Language::Guj => "guj",
        Language::Pan => "pan",
        Language::Sin => "sin",
        Language::Urd => "urd",
        Language::Ind => "ind",
        Language::Tgl => "tgl",
        Language::Vie => "vie",
        Language::Tha => "tha",
        Language::Khm => "khm",
        Language::Mya => "mya",
        Language::Cmn => "cmn",
        Language::Jpn => "jpn",
        Language::Kor => "kor",
        Language::Ara => "ara",
        Language::Pes => "pes",
        Language::Heb => "heb",
        Language::Amh => "amh",
        _ => "und",
    }
}

/// Whether `lang` has a code of its own in `lang_to_code` (the others get
/// `"und"`); these are the languages the default mapping names one by one.
pub open spec fn has_own_code(lang: Language) -> bool {
    match lang {
        Language::Eng => true,
        Language::Fra => true,
        Language::Deu => true,
        Language::Spa => true,
        Language::Ita => true,
        Language::Por => true,
        Language::Nld => true,
        Language::Swe => true,
        Language::Fin => true,
        Language::Dan => true,
        Language::Nob => true,
        Language::Hun => true,
        Language::Ron => true,
        Language::Cat => true,
        Language::Pol => true,
        Language::Ces => true,
        Language::Slk => true,
        Language::Slv => true,
        Language::Hrv => true,
        Language::Srp => true,
        Language::Bul => true,
        Language::Lit => true,
        Language::Lav => true,
        Language::Est => true,
        Language::Rus => true,
        Language::Ukr => true,
        Language::Ell => true,
        Language::Tur => true,
        Language::Aze => true,
        Language::Hin => true,
        Language::Ben => true,
        Language::Mar => true,
        Language::Nep => true,
        Language::Tam => true,
        Language::Tel => true,
        Language::Kan => true,
        Language::Mal => true,
        Language::Guj => true,
        Language::Pan => true,
        Language::Sin => true,
        Language::Urd => true,
        Language::Ind => true,
        Language::Tgl => true,
        Language::Vie => true,
        Language::Tha => true,
        Language::Khm => true,
        Language::Mya => true,
        Language::Cmn => true,
        Language::Jpn => true,
        Language::Kor => true,
        Language::Ara => true,
        Language::Pes => true,
        Language::Heb => true,
        Language::Amh => true,
        _ => false,
    }
}

/// A three-letter code read as a number, one byte per letter.
pub open spec fn code_key(code: Seq<char>) -> int {
    code[0] as int * 65536 + code[1] as int * 256 + code[2] as int
}

/// The language whose code has key `key`, if one has.
spec fn language_with_code_key(key: int) -> Option<Language> {
    if key == 6647399 {
        Some(Language::Eng)
    }
    else if key == 6713953 {
        Some(Language::Fra)
    }
    else if key == 6579573 {
        Some(Language::Deu)
    }
    else if key == 7565409 {
        Some(Language::Spa)
    }
    else if key == 6911073 {
        Some(Language::Ita)
    }
    else if key == 7368562 {
        Some(Language::Por)
    }
    else if key == 7236708 {
        Some(Language::Nld)
    }
    else if key == 7567205 {
        Some(Language::Swe)
    }
    else if key == 6711662 {
        Some(Language::Fin)
    }
    else if key == 6578542 {
        Some(Language::Dan)
    }
    else if key == 7237474 {
        Some(Language::Nob)
    }
    else if key == 6845806 {
        Some(Language::Hun)
    }
    else if key == 7499630 {
        Some(Language::Ron)
    }
    else if key == 6513012 {
        Some(Language::Cat)
    }
    else if key == 7368556 {
        Some(Language::Pol)
    }
    else if key == 6514035 {
        Some(Language::Ces)
    }
    else if key == 7564395 {
        Some(Language::Slk)
    }
    else if key == 7564406 {
        Some(Language::Slv)
    }
    else if key == 6845046 {
        Some(Language::Hrv)
    }
    else if key == 7565936 {
        Some(Language::Srp)
    }
    else if key == 6452588 {
        Some(Language::Bul)
    }
    else if key == 7104884 {
        Some(Language::Lit)
    }
    else if key == 7102838 {
        Some(Language::Lav)
    }
    else if key == 6648692 {
        Some(Language::Est)
    }
    else if key == 7501171 {
        Some(Language::Rus)
    }
    else if key == 7695218 {
        Some(Language::Ukr)
    }
    else if key == 6646892 {
        Some(Language::Ell)
    }
    else if key == 7632242 {
        Some(Language::Tur)
    }
    else if key == 6388325 {
        Some(Language::Aze)
    }
    else if key == 6842734 {
        Some(Language::Hin)
    }
    else if key == 6448494 {
        Some(Language::Ben)
    }
    else if key == 7168370 {
        Some(Language::Mar)
    }
    else if key == 7234928 {
        Some(Language::Nep)
    }
    else if key == 7627117 {
        Some(Language::Tam)
    }
    else if key == 7628140 {
        Some(Language::Tel)
    }
    else if key == 7037294 {
        Some(Language::Kan)
    }
    else if key == 7168364 {
        Some(Language::Mal)
    }
    else if key == 6780266 {
        Some(Language::Guj)
    }
    else if key == 7364974 {
        Some(Language::Pan)
    }
    else if key == 7563630 {
        Some(Language::Sin)
    }
    else if key == 7696996 {
        Some(Language::Urd)
    }
    else if key == 6909540 {
        Some(Language::Ind)
    }
    else if key == 7628652 {
        Some(Language::Tgl)
    }
    else if key == 7760229 {
        Some(Language::Vie)
    }
    else if key == 7628897 {
        Some(Language::Tha)
    }
    else if key == 7039085 {
        Some(Language::Khm)
    }
    else if key == 7174497 {
        Some(Language::Mya)
    }
    else if key == 6516078 {
        Some(Language::Cmn)
    }
    else if key == 6975598 {
        Some(Language::Jpn)
    }
    else if key == 7040882 {
        Some(Language::Kor)
    }
    else if key == 6386273 {
        Some(Language::Ara)
    }
    else if key == 7366003 {
        Some(Language::Pes)
    }
    else if key == 6841698 {
        Some(Language::Heb)
    }
    else if key == 6385000 {
        Some(Language::Amh)
    }
    else {
        None
    }
}

/// The code of `lang` has three lowercase ASCII letters, and `lang` is the
/// language with its key when it has a code of its own.
proof fn lemma_code_letters(lang: Language)
    ensures
        code_for(lang).len() == 3,
        forall|i: int| 0 <= i < 3 ==> 'a' <= #[trigger] code_for(lang)[i] <= 'z',
        has_own_code(lang) ==> language_with_code_key(code_key(code_for(lang))) == Some(lang),
        !has_own_code(lang) ==> code_for(lang) == "und"@,
{
    match lang {
        Language::Eng => reveal_strlit("eng"),
        Language::Fra => reveal_strlit("fra"),
        Language::Deu => reveal_strlit("deu"),
        Language::Spa => reveal_strlit("spa"),
        Language::Ita => reveal_strlit("ita"),
        Language::Por => reveal_strlit("por"),
        Language::Nld => reveal_strlit("nld"),
        Language::Swe => reveal_strlit("swe"),
        Language::Fin => reveal_strlit("fin"),
        Language::Dan => reveal_strlit("dan"),
        Language::Nob => reveal_strlit("nob"),
        Language::Hun => reveal_strlit("hun"),
        Language::Ron => reveal_strlit("ron"),
        Language::Cat => reveal_strlit("cat"),
        Language::Pol => reveal_strlit("pol"),
        Language::Ces => reveal_strlit("ces"),
        Language::Slk => reveal_strlit("slk"),
        Language::Slv => reveal_strlit("slv"),
        Language::Hrv => reveal_strlit("hrv"),
        Language::Srp => reveal_strlit("srp"),
        Language::Bul => reveal_strlit("bul"),
        Language::Lit => reveal_strlit("lit"),
        Language::Lav => reveal_strlit("lav"),
        Language::Est => reveal_strlit("est"),
        Language::Rus => reveal_strlit("rus"),
        Language::Ukr => reveal_strlit("ukr"),
        Language::Ell => reveal_strlit("ell"),
        Language::Tur => reveal_strlit("tur"),
        Language::Aze => reveal_strlit("aze"),
        Language::Hin => reveal_strlit("hin"),
        Language::Ben => reveal_strlit("ben"),
        Language::Mar => reveal_strlit("mar"),
        Language::Nep => reveal_strlit("nep"),
        Language::Tam => reveal_strlit("tam"),
        Language::Tel => reveal_strlit("tel"),
        Language::Kan => reveal_strlit("kan"),
        Language::Mal => reveal_strlit("mal"),
        Language::Guj => reveal_strlit("guj"),
        Language::Pan => reveal_strlit("pan"),
        Language::Sin => reveal_strlit("sin"),
        Language::Urd => reveal_strlit("urd"),
        Language::Ind => reveal_strlit("ind"),
        Language::Tgl => reveal_strlit("tgl"),
        Language::Vie => reveal_strlit("vie"),
        Language::Tha => reveal_strlit("tha"),
        Language::Khm => reveal_strlit("khm"),
        Language::Mya => reveal_strlit("mya"),
        Language::Cmn => reveal_strlit("cmn"),
        Language::Jpn => reveal_strlit("jpn"),
        Language::Kor => reveal_strlit("kor"),
        Language::Ara => reveal_strlit("ara"),
        Language::Pes => reveal_strlit("pes"),
        Language::Heb => reveal_strlit("heb"),
        Language::Amh => reveal_strlit("amh"),
        _ => reveal_strlit("und"),
    }
}

/// `lang_to_code` gives every language a code of three lowercase ASCII
/// letters; it gives `"und"` exactly to the languages without a code of their
/// own, and distinct codes to distinct languages that have one.
pub proof fn lemma_codes_are_distinct(a: Language, b: Language)
    ensures
        code_for(a).len() == 3,
        forall|i: int| 0 <= i < 3 ==> 'a' <= #[trigger] code_for(a)[i] <= 'z',
        code_for(a) == "und"@ <==> !has_own_code(a),
        has_own_code(a) && code_for(a) == code_for(b) ==> a == b,
{
    lemma_code_letters(a);
    lemma_code_letters(b);
    reveal_strlit("und");
}

/// The override code of every language: whatlang's ISO 639-3 code for each
/// language that has one of its own here, `"und"` for every other language.
pub proof fn lemma_code_of_each_language()
    ensures
        code_for(Language::Epo) == "und"@ && !has_own_code(Language::Epo),
        code_for(Language::Eng) == "eng"@ && has_own_code(Language::Eng),
        code_for(Language::Rus) == "rus"@ && has_own_code(Language::Rus),
        code_for(Language::Cmn) == "cmn"@ && has_own_code(Language::Cmn),
        code_for(Language::Spa) == "spa"@ && has_own_code(Language::Spa),
        code_for(Language::Por) == "por"@ && has_own_code(Language::Por),
        code_for(Language::Ita) == "ita"@ && has_own_code(Language::Ita),
        code_for(Language::Ben) == "ben"@ && has_own_code(Language::Ben),
        code_for(Language::Fra) == "fra"@ && has_own_code(Language::Fra),
        code_for(Language::Deu) == "deu"@ && has_own_code(Language::Deu),
        code_for(Language::Ukr) == "ukr"@ && has_own_code(Language::Ukr),
        code_for(Language::Kat) == "und"@ && !has_own_code(Language::Kat),
        code_for(Language::Ara) == "ara"@ && has_own_code(Language::Ara),
        code_for(Language::Hin) == "hin"@ && has_own_code(Language::Hin),
        code_for(Language::Jpn) == "jpn"@ && has_own_code(Language::Jpn),
        code_for(Language::Heb) == "heb"@ && has_own_code(Language::Heb),
        code_for(Language::Yid) == "und"@ && !has_own_code(Language::Yid),
        code_for(Language::Pol) == "pol"@ && has_own_code(Language::Pol),
        code_for(Language::Amh) == "amh"@ && has_own_code(Language::Amh),
        code_for(Language::Jav) == "und"@ && !has_own_code(Language::Jav),
        code_for(Language::Kor) == "kor"@ && has_own_code(Language::Kor),
        code_for(Language::Nob) == "nob"@ && has_own_code(Language::Nob),
        code_for(Language::Dan) == "dan"@ && has_own_code(Language::Dan),
        code_for(Language::Swe) == "swe"@ && has_own_code(Language::Swe),
        code_for(Language::Fin) == "fin"@ && has_own_code(Language::Fin),
        code_for(Language::Tur) == "tur"@ && has_own_code(Language::Tur),
        code_for(Language::Nld) == "nld"@ && has_own_code(Language::Nld),
        code_for(Language::Hun) == "hun"@ && has_own_code(Language::Hun),
        code_for(Language::Ces) == "ces"@ && has_own_code(Language::Ces),
        code_for(Language::Ell) == "ell"@ && has_own_code(Language::Ell),
        code_for(Language::Bul) == "bul"@ && has_own_code(Language::Bul),
        code_for(Language::Bel) == "und"@ && !has_own_code(Language::Bel),
        code_for(Language::Mar) == "mar"@ && has_own_code(Language::Mar),
        code_for(Language::Kan) == "kan"@ && has_own_code(Language::Kan),
        code_for(Language::Ron) == "ron"@ && has_own_code(Language::Ron),
        code_for(Language::Slv) == "slv"@ && has_own_code(Language::Slv),
        code_for(Language::Hrv) == "hrv"@ && has_own_code(Language::Hrv),
        code_for(Language::Srp) == "srp"@ && has_own_code(Language::Srp),
        code_for(Language::Mkd) == "und"@ && !has_own_code(Language::Mkd),
        code_for(Language::Lit) == "lit"@ && has_own_code(Language::Lit),
        code_for(Language::Lav) == "lav"@ && has_own_code(Language::Lav),
        code_for(Language::Est) == "est"@ && has_own_code(Language::Est),
        code_for(Language::Tam) == "tam"@ && has_own_code(Language::Tam),
        code_for(Language::Vie) == "vie"@ && has_own_code(Language::Vie),
        code_for(Language::Urd) == "urd"@ && has_own_code(Language::Urd),
        code_for(Language::Tha) == "tha"@ && has_own_code(Language::Tha),
        code_for(Language::Guj) == "guj"@ && has_own_code(Language::Guj),
        code_for(Language::Uzb) == "und"@ && !has_own_code(Language::Uzb),
        code_for(Language::Pan) == "pan"@ && has_own_code(Language::Pan),
        code_for(Language::Aze) == "aze"@ && has_own_code(Language::Aze),
        code_for(Language::Ind) == "ind"@ && has_own_code(Language::Ind),
        code_for(Language::Tel) == "tel"@ && has_own_code(Language::Tel),
        code_for(Language::Pes) == "pes"@ && has_own_code(Language::Pes),
        code_for(Language::Mal) == "mal"@ && has_own_code(Language::Mal),
        code_for(Language::Ori) == "und"@ && !has_own_code(Language::Ori),
        code_for(Language::Mya) == "mya"@ && has_own_code(Language::Mya),
        code_for(Language::Nep) == "nep"@ && has_own_code(Language::Nep),
        code_for(Language::Sin) == "sin"@ && has_own_code(Language::Sin),
        code_for(Language::Khm) == "khm"@ && has_own_code(Language::Khm),
        code_for(Language::Tuk) == "und"@ && !has_own_code(Language::Tuk),
        code_for(Language::Aka) == "und"@ && !has_own_code(Language::Aka),
        code_for(Language::Zul) == "und"@ && !has_own_code(Language::Zul),
        code_for(Language::Sna) == "und"@ && !has_own_code(Language::Sna),
        code_for(Language::Afr) == "und"@ && !has_own_code(Language::Afr),
        code_for(Language::Lat) == "und"@ && !has_own_code(Language::Lat),
        code_for(Language::Slk) == "slk"@ && has_own_code(Language::Slk),
        code_for(Language::Cat) == "cat"@ && has_own_code(Language::Cat),
        code_for(Language::Tgl) == "tgl"@ && has_own_code(Language::Tgl),
        code_for(Language::Hye) == "und"@ && !has_own_code(Language::Hye),
{
}

/// Whether `bits` are those of a NaN (of either sign).
pub open spec fn is_nan_bits(bits: u64) -> bool {
    if bits >= SIGN_BIT {
        bits - SIGN_BIT > INFINITY_BITS
    } else {
        bits > INFINITY_BITS
    }
}

/// A threshold clamped to `[0, 1]`, on the bits of its `f64`: a NaN stays as
/// it is (no confidence reaches it), a negative value or negative zero becomes
/// zero, a value above one becomes one.
pub open spec fn clamped_threshold(bits: u64) -> u64 {
    if is_nan_bits(bits) {
        bits
    } else if bits >= SIGN_BIT {
        0
    } else if bits > ONE_BITS {
        ONE_BITS
    } else {
        bits
    }
}

/// What an `AutoTokenizer` holds, as mathematical values.
pub struct AutoTokenizerView {
    /// The names of the analyzers it can delegate to.
    pub analyzers: Set<Seq<char>>,
    /// Language code to analyzer name.
    pub overrides: Map<Seq<char>, Seq<char>>,
    /// The confidence threshold, as the bits of its `f64`.
    pub threshold_bits: u64,
}

/// The analyzer chosen for a detection that reaches the threshold: the
/// override for its language code when that names an analyzer of the
/// tokenizer, else the default analyzer for the language when the tokenizer
/// has it, else the fallback (`None`).
pub open spec fn confident_choice(tokenizer: AutoTokenizerView, detection: Detection) -> Option<Seq<char>> {
    let code = code_for(detection.language);
    if tokenizer.overrides.contains_key(code) && tokenizer.analyzers.contains(tokenizer.overrides[code]) {
        Some(tokenizer.overrides[code])
    } else if tokenizer.analyzers.contains(analyzer_for(detection.language)) {
        Some(analyzer_for(detection.language))
    } else {
        None
    }
}

/// The analyzer chosen for a detection: `None` means the fallback analyzer.
///
/// A detection below the threshold, or no detection, gets the fallback; a
/// confident one gets `confident_choice`.
pub open spec fn selection(tokenizer: AutoTokenizerView, detection: Option<Detection>) -> Option<Seq<char>> {
    match detection {
        Some(d) => if reaches(d, tokenizer.threshold_bits) {
            confident_choice(tokenizer, d)
        } else {
            None
        },
        None => None,
    }
}

/// A tokenizer that detects the language of its input and picks the analyzer
/// whose full pipeline is to run on it.
///
/// When a text comes in:
///
/// 1. whatlang detects its language;
/// 2. if an override is set for that language's code and names an analyzer
///    the tokenizer has, that analyzer is chosen;
/// 3. otherwise the analyzer of the default mapping (`whatlang_to_analyzer`)
///    is chosen, if the tokenizer has it;
/// 4. otherwise, and whenever detection fails or its confidence is below the
///    threshold, the fallback analyzer is chosen.
pub struct AutoTokenizer {
    analyzers: AnalyzerNames,
    overrides: OverrideMap,
    confidence_threshold_bits: u64,
}

impl View for AutoTokenizer {
    type V = AutoTokenizerView;

    closed spec fn view(&self) -> AutoTokenizerView {
        AutoTokenizerView {
            analyzers: analyzer_names_of(self.analyzers),
            overrides: override_entries(self.overrides),
            threshold_bits: self.confidence_threshold_bits,
        }
    }
}

/// Only analyzers the tokenizer holds are ever chosen: whatever the
/// detection, the chosen name (if any) is one of the tokenizer's analyzers.
pub proof fn lemma_selection_is_held(tokenizer: AutoTokenizerView, detection: Option<Detection>)
    ensures
        selection(tokenizer, detection) matches Some(name) ==> tokenizer.analyzers.contains(name),
{
}

/// A threshold set at zero or below accepts every detection, and one set at
/// one or above accepts only detections of full confidence (for detections
/// whose confidence lies in `[0, 1]`, as `detect_info` promises). On the bits
/// of a threshold that is not a NaN: "zero or below" is positive zero or the
/// sign bit set, "one or above" is from one's bits up to the sign bit.
pub proof fn lemma_threshold_extremes(tokenizer: AutoTokenizerView, detection: Detection, threshold_bits: u64)
    requires
        detection.confidence_bits <= ONE_BITS,
        !is_nan_bits(threshold_bits),
    ensures
        threshold_bits == 0 || threshold_bits >= SIGN_BIT ==> selection(
            AutoTokenizerView { threshold_bits: clamped_threshold(threshold_bits), ..tokenizer },
            Some(detection),
        ) == confident_choice(tokenizer, detection),
        ONE_BITS <= threshold_bits < SIGN_BIT ==> selection(
            AutoTokenizerView { threshold_bits: clamped_threshold(threshold_bits), ..tokenizer },
            Some(detection),
        ) == if detection.confidence_bits == ONE_BITS {
            confident_choice(tokenizer, detection)
        } else {
            None
        },
{
}

/// When whatlang detects nothing, or its confidence is below the threshold,
/// the fallback analyzer is chosen.
pub proof fn lemma_unconfident_detection_falls_back(
    tokenizer: AutoTokenizerView,
    detection: Option<Detection>,
)
    requires
        detection matches Some(d) ==> !reaches(d, tokenizer.threshold_bits),
    ensures
        selection(tokenizer, detection) is None,
{
}

/// After an override from a language's code to an analyzer the tokenizer
/// holds, a confident detection of that language chooses that analyzer.
pub proof fn lemma_override_takes_effect(
    tokenizer: AutoTokenizerView,
    detection: Detection,
    analyzer_name: Seq<char>,
)
    requires
        tokenizer.analyzers.contains(analyzer_name),
        reaches(detection, tokenizer.threshold_bits),
    ensures
        selection(
            AutoTokenizerView {
                overrides: tokenizer.overrides.insert(code_for(detection.language), analyzer_name),
                ..tokenizer
            },
            Some(detection),
        ) == Some(analyzer_name),
{
}

/// An override for one language code leaves the choice for every language
/// with another code as it was.
pub proof fn lemma_override_is_local(
    tokenizer: AutoTokenizerView,
    detection: Option<Detection>,
    lang_code: Seq<char>,
    analyzer_name: Seq<char>,
)
    requires
        detection matches Some(d) ==> code_for(d.language) != lang_code,
    ensures
        selection(
            AutoTokenizerView { overrides: tokenizer.overrides.insert(lang_code, analyzer_name), ..tokenizer },
            detection,
        ) == selection(tokenizer, detection),
{
}

/// An override that names an analyzer the tokenizer does not hold is passed
/// over: the default mapping decides.
pub proof fn lemma_unheld_override_is_ignored(tokenizer: AutoTokenizerView, detection: Option<Detection>)
    requires
        detection matches Some(d) ==> (tokenizer.overrides.contains_key(code_for(d.language))
            ==> !tokenizer.analyzers.contains(tokenizer.overrides[code_for(d.language)])),
    ensures
        selection(tokenizer, detection) == selection(
            AutoTokenizerView { overrides: no_overrides(), ..tokenizer },
            detection,
        ),
{
}

/// Lowering the threshold never takes away a choice that was made at the
/// higher one: what a detection chose stays chosen.
pub proof fn lemma_lower_threshold_keeps_choice(
    tokenizer: AutoTokenizerView,
    detection: Option<Detection>,
    lower_bits: u64,
)
    requires
        lower_bits <= tokenizer.threshold_bits,
        selection(tokenizer, detection) is Some,
    ensures
        selection(AutoTokenizerView { threshold_bits: lower_bits, ..tokenizer }, detection) == selection(
            tokenizer,
            detection,
        ),
{
}

/// A clamped threshold stays as it is when clamped again, and, unless it is a
/// NaN, lies between zero and one.
pub proof fn lemma_clamp_is_idempotent(bits: u64)
    ensures
        clamped_threshold(clamped_threshold(bits)) == clamped_threshold(bits),
        !is_nan_bits(bits) ==> clamped_threshold(bits) <= ONE_BITS,
        bits <= ONE_BITS ==> clamped_threshold(bits) == bits,
{
}

/// A tokenizer that holds the analyzer of every language and has no
/// overrides chooses, at the default threshold, exactly what
/// `detect_language` answers.
pub proof fn lemma_full_tokenizer_agrees_with_detect_language(
    tokenizer: AutoTokenizerView,
    detection: Option<Detection>,
)
    requires
        forall|lang: Language| #[trigger] tokenizer.analyzers.contains(analyzer_for(lang)),
        tokenizer.overrides == no_overrides(),
    ensures
        selection(tokenizer, detection) == confident_analyzer_for(detection, tokenizer.threshold_bits),
{
}

impl Clone for AutoTokenizer {
    fn clone(&self) -> (r: Self)
        ensures
            r@ == self@,
    {
        AutoTokenizer {
            analyzers: self.analyzers.clone(),
            overrides: self.overrides.clone(),
            confidence_threshold_bits: self.confidence_threshold_bits,
        }
    }
}

impl AutoTokenizer {
    /// A tokenizer over the analyzers named in `analyzers`, without
    /// overrides, with the default confidence threshold.
    pub fn new(analyzers: AnalyzerNames) -> (r: Self)
        ensures
            r@.analyzers == analyzer_names_of(analyzers),
            r@.overrides == no_overrides(),
            r@.threshold_bits == DEFAULT_CONFIDENCE_THRESHOLD_BITS,
    {
        AutoTokenizer {
            analyzers,
            overrides: OverrideMap::new(),
            confidence_threshold_bits: DEFAULT_CONFIDENCE_THRESHOLD_BITS,
        }
    }

    /// Set the confidence threshold, given as the bits of an `f64`, clamped
    /// to `[0, 1]` (zero accepts any detection, one asks for full
    /// confidence).
    pub fn set_confidence_threshold(&mut self, threshold_bits: u64)
        ensures
            final(self)@ == (AutoTokenizerView {
                threshold_bits: clamped_threshold(threshold_bits),
                ..old(self)@
            }),
    {
        let magnitude = if threshold_bits >= SIGN_BIT {
            threshold_bits - SIGN_BIT
        } else {
            threshold_bits
        };
        let clamped = if magnitude > INFINITY_BITS {
            threshold_bits
        } else if threshold_bits >= SIGN_BIT {
            0
        } else if threshold_bits > ONE_BITS {
            ONE_BITS
        } else {
            threshold_bits
        };
        self.confidence_threshold_bits = clamped;
    }

    /// Use the analyzer named `analyzer_name` when the language with code
    /// `lang_code` is detected (whatlang's 3-letter codes, as `lang_to_code` gives them, such as
    /// `"cmn"`, `"jpn"`, `"eng"`).
    pub fn set_override(&mut self, lang_code: &str, analyzer_name: &str)
        ensures
            final(self)@ == (AutoTokenizerView {
                overrides: old(self)@.overrides.insert(lang_code@, analyzer_name@),
                ..old(self)@
            }),
    {
        self.overrides.insert(lang_code, analyzer_name);
    }

    /// Replace all overrides at once.
    pub fn set_overrides(&mut self, overrides: OverrideMap)
        ensures
            final(self)@ == (AutoTokenizerView { overrides: override_entries(overrides), ..old(self)@ }),
    {
        self.overrides = overrides;
    }

    /// The analyzer chosen for a detection, by name; `None` means the
    /// fallback analyzer.
    pub fn select_for_detection(&self, detection: Option<Detection>) -> (r: Option<&str>)
        ensures
            str_option_view(r) == selection(self@, detection),
    {
        match detection {
            Some(d) => {
                if d.confidence_bits >= self.confidence_threshold_bits {
                    let code = lang_to_code(d.language);
                    if let Some(name) = self.overrides.get(code) {
                        if self.analyzers.contains(name) {
                            return Some(name);
                        }
                    }
                    let default_name = whatlang_to_analyzer(d.language);
                    if self.analyzers.contains(default_name) {
                        Some(default_name)
                    } else {
                        None
                    }
                } else {
                    None
                }
            },
            None => None,
        }
    }

    /// The analyzer chosen for `text`, by name, after detecting its language;
    /// `None` means the fallback analyzer.
    pub fn select_analyzer(&self, text: &str) -> (r: Option<&str>)
        ensures
            str_option_view(r) == selection(self@, detection_from_verdict(whatlang_verdict(text@))),
    {
        let detection = detect_info(text);
        self.select_for_detection(detection)
    }
}

} // verus!
