//! The languages that whatlang can tell apart, as a type of this library.
//!
//! whatlang declares its `Lang` enum with the discriminants `0..=68`, in the
//! order used here; `Language::from_index` turns such a discriminant into a
//! `Language`.

use vstd::prelude::*;

verus! {

/// A language in the ISO 639-3 sense, one variant for each variant of
/// whatlang's `Lang`, in whatlang's declaration order.
#[derive(Clone, Copy, Debug, PartialEq, Eq, Hash, Structural)]
pub enum Language {
    /// Esperanto
    Epo,
    /// English
    Eng,
    /// Russian
    Rus,
    /// Mandarin
    Cmn,
    /// Spanish
    Spa,
    /// Portuguese
    Por,
    /// Italian
    Ita,
    /// Bengali
    Ben,
    /// French
    Fra,
    /// German
    Deu,
    /// Ukrainian
    Ukr,
    /// Georgian
    Kat,
    /// Arabic
    Ara,
    /// Hindi
    Hin,
    /// Japanese
    Jpn,
    /// Hebrew
    Heb,
    /// Yiddish
    Yid,
    /// Polish
    Pol,
    /// Amharic
    Amh,
    /// Javanese
    Jav,
    /// Korean
    Kor,
    /// Bokmal
    Nob,
    /// Danish
    Dan,
    /// Swedish
    Swe,
    /// Finnish
    Fin,
    /// Turkish
    Tur,
    /// Dutch
    Nld,
    /// Hungarian
    Hun,
    /// Czech
    Ces,
    /// Greek
    Ell,
    /// Bulgarian
    Bul,
    /// Belarusian
    Bel,
    /// Marathi
    Mar,
    /// Kannada
    Kan,
    /// Romanian
    Ron,
    /// Slovene
    Slv,
    /// Croatian
    Hrv,
    /// Serbian
    Srp,
    /// Macedonian
    Mkd,
    /// Lithuanian
    Lit,
    /// Latvian
    Lav,
    /// Estonian
    Est,
    /// Tamil
    Tam,
    /// Vietnamese
    Vie,
    /// Urdu
    Urd,
    /// Thai
    Tha,
    /// Gujarati
    Guj,
    /// Uzbek
    Uzb,
    /// Punjabi
    Pan,
    /// Azerbaijani
    Aze,
    /// Indonesian
    Ind,
    /// Telugu
    Tel,
    /// Persian
    Pes,
    /// Malayalam
    Mal,
    /// Oriya
    Ori,
    /// Burmese
    Mya,
    /// Nepali
    Nep,
    /// Sinhalese
    Sin,
    /// Khmer
    Khm,
    /// Turkmen
    Tuk,
    /// Akan
    Aka,
    /// Zulu
    Zul,
    /// Shona
    Sna,
    /// Afrikaans
    Afr,
    /// Latin
    Lat,
    /// Slovak
    Slk,
    /// Catalan
    Cat,
    /// Tagalog
    Tgl,
    /// Armenian
    Hye,
}

/// The number of languages.
pub const LANGUAGE_COUNT: u8 = 69;

/// The position of `lang` in whatlang's declaration order.
pub open spec fn language_index(lang: Language) -> u8 {
    match lang {
        Language::Epo => 0,
        Language::Eng => 1,
        Language::Rus => 2,
        Language::Cmn => 3,
        Language::Spa => 4,
        Language::Por => 5,
        Language::Ita => 6,
        Language::Ben => 7,
        Language::Fra => 8,
        Language::Deu => 9,
        Language::Ukr => 10,
        Language::Kat => 11,
        Language::Ara => 12,
        Language::Hin => 13,
        Language::Jpn => 14,
        Language::Heb => 15,
        Language::Yid => 16,
        Language::Pol => 17,
        Language::Amh => 18,
        Language::Jav => 19,
        Language::Kor => 20,
        Language::Nob => 21,
        Language::Dan => 22,
        Language::Swe => 23,
        Language::Fin => 24,
        Language::Tur => 25,
        Language::Nld => 26,
        Language::Hun => 27,
        Language::Ces => 28,
        Language::Ell => 29,
        Language::Bul => 30,
        Language::Bel => 31,
        Language::Mar => 32,
        Language::Kan => 33,
        Language::Ron => 34,
        Language::Slv => 35,
        Language::Hrv => 36,
        Language::Srp => 37,
        Language::Mkd => 38,
        Language::Lit => 39,
        Language::Lav => 40,
        Language::Est => 41,
        Language::Tam => 42,
        Language::Vie => 43,
        Language::Urd => 44,
        Language::Tha => 45,
        Language::Guj => 46,
        Language::Uzb => 47,
        Language::Pan => 48,
        Language::Aze => 49,
        Language::Ind => 50,
        Language::Tel => 51,
        Language::Pes => 52,
        Language::Mal => 53,
        Language::Ori => 54,
        Language::Mya => 55,
        Language::Nep => 56,
        Language::Sin => 57,
        Language::Khm => 58,
        Language::Tuk => 59,
        Language::Aka => 60,
        Language::Zul => 61,
        Language::Sna => 62,
        Language::Afr => 63,
        Language::Lat => 64,
        Language::Slk => 65,
        Language::Cat => 66,
        Language::Tgl => 67,
        Language::Hye => 68,
    }
}

/// The language at position `index` of whatlang's declaration order, if any.
pub open spec fn language_at(index: u8) -> Option<Language> {
    match index {
        0 => Some(Language::Epo),
        1 => Some(Language::Eng),
        2 => Some(Language::Rus),
        3 => Some(Language::Cmn),
        4 => Some(Language::Spa),
        5 => Some(Language::Por),
        6 => Some(Language::Ita),
        7 => Some(Language::Ben),
        8 => Some(Language::Fra),
        9 => Some(Language::Deu),
        10 => Some(Language::Ukr),
        11 => Some(Language::Kat),
        12 => Some(Language::Ara),
        13 => Some(Language::Hin),
        14 => Some(Language::Jpn),
        15 => Some(Language::Heb),
        16 => Some(Language::Yid),
        17 => Some(Language::Pol),
        18 => Some(Language::Amh),
        19 => Some(Language::Jav),
        20 => Some(Language::Kor),
        21 => Some(Language::Nob),
        22 => Some(Language::Dan),
        23 => Some(Language::Swe),
        24 => Some(Language::Fin),
        25 => Some(Language::Tur),
        26 => Some(Language::Nld),
        27 => Some(Language::Hun),
        28 => Some(Language::Ces),
        29 => Some(Language::Ell),
        30 => Some(Language::Bul),
        31 => Some(Language::Bel),
        32 => Some(Language::Mar),
        33 => Some(Language::Kan),
        34 => Some(Language::Ron),
        35 => Some(Language::Slv),
        36 => Some(Language::Hrv),
        37 => Some(Language::Srp),
        38 => Some(Language::Mkd),
        39 => Some(Language::Lit),
        40 => Some(Language::Lav),
        41 => Some(Language::Est),
        42 => Some(Language::Tam),
        43 => Some(Language::Vie),
        44 => Some(Language::Urd),
        45 => Some(Language::Tha),
        46 => Some(Language::Guj),
        47 => Some(Language::Uzb),
        48 => Some(Language::Pan),
        49 => Some(Language::Aze),
        50 => Some(Language::Ind),
        51 => Some(Language::Tel),
        52 => Some(Language::Pes),
        53 => Some(Language::Mal),
        54 => Some(Language::Ori),
        55 => Some(Language::Mya),
        56 => Some(Language::Nep),
        57 => Some(Language::Sin),
        58 => Some(Language::Khm),
        59 => Some(Language::Tuk),
        60 => Some(Language::Aka),
        61 => Some(Language::Zul),
        62 => Some(Language::Sna),
        63 => Some(Language::Afr),
        64 => Some(Language::Lat),
        65 => Some(Language::Slk),
        66 => Some(Language::Cat),
        67 => Some(Language::Tgl),
        68 => Some(Language::Hye),
        _ => None,
    }
}

/// Positions and languages correspond one to one: every language sits at
/// its own position, and exactly the positions below `LANGUAGE_COUNT` hold one.
pub proof fn lemma_language_positions(lang: Language, index: u8)
    ensures
        language_index(lang) < LANGUAGE_COUNT,
        language_at(language_index(lang)) == Some(lang),
        language_at(index) is Some <==> index < LANGUAGE_COUNT,
        language_at(index) matches Some(l) ==> language_index(l) == index,
{
}

/// Every language sits at its discriminant in whatlang's declaration of
/// `Lang`.
pub proof fn lemma_index_of_each_language()
    ensures
        language_index(Language::Epo) == 0,
        language_index(Language::Eng) == 1,
        language_index(Language::Rus) == 2,
        language_index(Language::Cmn) == 3,
        language_index(Language::Spa) == 4,
        language_index(Language::Por) == 5,
        language_index(Language::Ita) == 6,
        language_index(Language::Ben) == 7,
        language_index(Language::Fra) == 8,
        language_index(Language::Deu) == 9,
        language_index(Language::Ukr) == 10,
        language_index(Language::Kat) == 11,
        language_index(Language::Ara) == 12,
        language_index(Language::Hin) == 13,
        language_index(Language::Jpn) == 14,
        language_index(Language::Heb) == 15,
        language_index(Language::Yid) == 16,
        language_index(Language::Pol) == 17,
        language_index(Language::Amh) == 18,
        language_index(Language::Jav) == 19,
        language_index(Language::Kor) == 20,
        language_index(Language::Nob) == 21,
        language_index(Language::Dan) == 22,
        language_index(Language::Swe) == 23,
        language_index(Language::Fin) == 24,
        language_index(Language::Tur) == 25,
        language_index(Language::Nld) == 26,
        language_index(Language::Hun) == 27,
        language_index(Language::Ces) == 28,
        language_index(Language::Ell) == 29,
        language_index(Language::Bul) == 30,
        language_index(Language::Bel) == 31,
        language_index(Language::Mar) == 32,
        language_index(Language::Kan) == 33,
        language_index(Language::Ron) == 34,
        language_index(Language::Slv) == 35,
        language_index(Language::Hrv) == 36,
        language_index(Language::Srp) == 37,
        language_index(Language::Mkd) == 38,
        language_index(Language::Lit) == 39,
        language_index(Language::Lav) == 40,
        language_index(Language::Est) == 41,
        language_index(Language::Tam) == 42,
        language_index(Language::Vie) == 43,
        language_index(Language::Urd) == 44,
        language_index(Language::Tha) == 45,
        language_index(Language::Guj) == 46,
        language_index(Language::Uzb) == 47,
        language_index(Language::Pan) == 48,
        language_index(Language::Aze) == 49,
        language_index(Language::Ind) == 50,
        language_index(Language::Tel) == 51,
        language_index(Language::Pes) == 52,
        language_index(Language::Mal) == 53,
        language_index(Language::Ori) == 54,
        language_index(Language::Mya) == 55,
        language_index(Language::Nep) == 56,
        language_index(Language::Sin) == 57,
        language_index(Language::Khm) == 58,
        language_index(Language::Tuk) == 59,
        language_index(Language::Aka) == 60,
        language_index(Language::Zul) == 61,
        language_index(Language::Sna) == 62,
        language_index(Language::Afr) == 63,
        language_index(Language::Lat) == 64,
        language_index(Language::Slk) == 65,
        language_index(Language::Cat) == 66,
        language_index(Language::Tgl) == 67,
        language_index(Language::Hye) == 68,
{
}

impl Language {
    /// The language whose whatlang discriminant is `index`; `None` when no
    /// language has it.
    pub fn from_index(index: u8) -> (r: Option<Language>)
        ensures
            r == language_at(index),
    {
        match index {
            0 => Some(Language::Epo),
            1 => Some(Language::Eng),
            2 => Some(Language::Rus),
            3 => Some(Language::Cmn),
            4 => Some(Language::Spa),
            5 => Some(Language::Por),
            6 => Some(Language::Ita),
            7 => Some(Language::Ben),
            8 => Some(Language::Fra),
            9 => Some(Language::Deu),
            10 => Some(Language::Ukr),
            11 => Some(Language::Kat),
            12 => Some(Language::Ara),
            13 => Some(Language::Hin),
            14 => Some(Language::Jpn),
            15 => Some(Language::Heb),
            16 => Some(Language::Yid),
            17 => Some(Language::Pol),
            18 => Some(Language::Amh),
            19 => Some(Language::Jav),
            20 => Some(Language::Kor),
            21 => Some(Language::Nob),
            22 => Some(Language::Dan),
            23 => Some(Language::Swe),
            24 => Some(Language::Fin),
            25 => Some(Language::Tur),
            26 => Some(Language::Nld),
            27 => Some(Language::Hun),
            28 => Some(Language::Ces),
            29 => Some(Language::Ell),
            30 => Some(Language::Bul),
            31 => Some(Language::Bel),
            32 => Some(Language::Mar),
            33 => Some(Language::Kan),
            34 => Some(Language::Ron),
            35 => Some(Language::Slv),
            36 => Some(Language::Hrv),
            37 => Some(Language::Srp),
            38 => Some(Language::Mkd),
            39 => Some(Language::Lit),
            40 => Some(Language::Lav),
            41 => Some(Language::Est),
            42 => Some(Language::Tam),
            43 => Some(Language::Vie),
            44 => Some(Language::Urd),
            45 => Some(Language::Tha),
            46 => Some(Language::Guj),
            47 => Some(Language::Uzb),
            48 => Some(Language::Pan),
            49 => Some(Language::Aze),
            50 => Some(Language::Ind),
            51 => Some(Language::Tel),
            52 => Some(Language::Pes),
            53 => Some(Language::Mal),
            54 => Some(Language::Ori),
            55 => Some(Language::Mya),
            56 => Some(Language::Nep),
            57 => Some(Language::Sin),
            58 => Some(Language::Khm),
            59 => Some(Language::Tuk),
            60 => Some(Language::Aka),
            61 => Some(Language::Zul),
            62 => Some(Language::Sna),
            63 => Some(Language::Afr),
            64 => Some(Language::Lat),
            65 => Some(Language::Slk),
            66 => Some(Language::Cat),
            67 => Some(Language::Tgl),
            68 => Some(Language::Hye),
            _ => None,
        }
    }

    /// The position of this language in whatlang's declaration order.
    pub fn index(&self) -> (r: u8)
        ensures
            r == language_index(*self),
    {
        match self {
            Language::Epo => 0,
            Language::Eng => 1,
            Language::Rus => 2,
            Language::Cmn => 3,
            Language::Spa => 4,
            Language::Por => 5,
            Language::Ita => 6,
            Language::Ben => 7,
            Language::Fra => 8,
            Language::Deu => 9,
            Language::Ukr => 10,
            Language::Kat => 11,
            Language::Ara => 12,
            Language::Hin => 13,
            Language::Jpn => 14,
            Language::Heb => 15,
            Language::Yid => 16,
            Language::Pol => 17,
            Language::Amh => 18,
            Language::Jav => 19,
            Language::Kor => 20,
            Language::Nob => 21,
            Language::Dan => 22,
            Language::Swe => 23,
            Language::Fin => 24,
            Language::Tur => 25,
            Language::Nld => 26,
            Language::Hun => 27,
            Language::Ces => 28,
            Language::Ell => 29,
            Language::Bul => 30,
            Language::Bel => 31,
            Language::Mar => 32,
            Language::Kan => 33,
            Language::Ron => 34,
            Language::Slv => 35,
            Language::Hrv => 36,
            Language::Srp => 37,
            Language::Mkd => 38,
            Language::Lit => 39,
            Language::Lav => 40,
            Language::Est => 41,
            Language::Tam => 42,
            Language::Vie => 43,
            Language::Urd => 44,
            Language::Tha => 45,
            Language::Guj => 46,
            Language::Uzb => 47,
            Language::Pan => 48,
            Language::Aze => 49,
            Language::Ind => 50,
            Language::Tel => 51,
            Language::Pes => 52,
            Language::Mal => 53,
            Language::Ori => 54,
            Language::Mya => 55,
            Language::Nep => 56,
            Language::Sin => 57,
            Language::Khm => 58,
            Language::Tuk => 59,
            Language::Aka => 60,
            Language::Zul => 61,
            Language::Sna => 62,
            Language::Afr => 63,
            Language::Lat => 64,
            Language::Slk => 65,
            Language::Cat => 66,
            Language::Tgl => 67,
            Language::Hye => 68,
        }
    }
}

} // verus!
