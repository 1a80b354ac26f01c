//! Which analyzers of the analysis factory the `auto` analyzer captures.
//!
//! The `auto` analyzer is registered after the language analyzers, and keeps
//! a copy of each analyzer in `language_analyzer_names` that the factory has
//! at that moment.

use vstd::prelude::*;

use crate::auto_analyzer::{code_for, selection, AutoTokenizerView};
use crate::collections::{analyzer_names_of, AnalyzerNames};
use crate::detect::{analyzer_for, Detection};

verus! {

/// The names of the analyzers the `auto` analyzer can delegate to. They are
/// the names under which the language analysis crates register their
/// analyzers.
pub open spec fn language_analyzer_name_list() -> Seq<Seq<char>> {
    seq![
        "standard"@,
        "whitespace"@,
        "english"@,
        "french"@,
        "german"@,
        "spanish"@,
        "italian"@,
        "portuguese"@,
        "dutch"@,
        "swedish"@,
        "finnish"@,
        "danish"@,
        "norwegian"@,
        "hungarian"@,
        "romanian"@,
        "catalan"@,
        "polish"@,
        "czech"@,
        "slovak"@,
        "slovenian"@,
        "croatian"@,
        "serbian"@,
        "bulgarian"@,
        "lithuanian"@,
        "latvian"@,
        "estonian"@,
        "russian"@,
        "ukrainian"@,
        "greek"@,
        "turkish"@,
        "azerbaijani"@,
        "hindi"@,
        "bengali"@,
        "indonesian"@,
        "thai"@,
        "cjk"@,
        "arabic"@,
        "persian"@,
        "brazilian"@,
    ]
}

/// The names of the list at the positions below `count` that are marked
/// registered.
pub open spec fn registered_names_below(registered: Seq<bool>, count: int) -> Set<Seq<char>> {
    Set::new(
        |name: Seq<char>|
            exists|i: int|
                0 <= i < count && i < registered.len() && i < language_analyzer_name_list().len()
                    && registered[i] && #[trigger] language_analyzer_name_list()[i] == name,
    )
}

/// The names the `auto` analyzer captures when `registered[i]` tells whether
/// the factory has the analyzer named by the `i`-th entry of the list.
pub open spec fn captured_names(registered: Seq<bool>) -> Set<Seq<char>> {
    registered_names_below(registered, language_analyzer_name_list().len() as int)
}

/// A name of at least three letters read as a number: its length, then its
/// first three letters.
spec fn name_key(name: Seq<char>) -> int {
    name.len() * 16777216 + name[0] as int * 65536 + name[1] as int * 256 + name[2] as int
}

/// The position in the list of the name with key `key`, or `-1`.
spec fn position_of_name_key(key: int) -> int {
    if key == 141784161 {
        0
    }
    else if key == 175597673 {
        1
    }
    else if key == 124087911 {
        2
    }
    else if key == 107377253 {
        3
    }
    else if key == 107439474 {
        4
    }
    else if key == 125005921 {
        5
    }
    else if key == 124351585 {
        6
    }
    else if key == 175140722 {
        7
    }
    else if key == 90469748 {
        8
    }
    else if key == 125007717 {
        9
    }
    else if key == 124152174 {
        10
    }
    else if key == 107241838 {
        11
    }
    else if key == 158232434 {
        12
    }
    else if key == 157840750 {
        13
    }
    else if key == 141717357 {
        14
    }
    else if key == 123953524 {
        15
    }
    else if key == 108031852 {
        16
    }
    else if key == 90405477 {
        17
    }
    else if key == 108227695 {
        18
    }
    else if key == 158559343 {
        19
    }
    else if key == 140735087 {
        20
    }
    else if key == 125003122 {
        21
    }
    else if key == 157447532 {
        22
    }
    else if key == 174877044 {
        23
    }
    else if key == 124543348 {
        24
    }
    else if key == 140866420 {
        25
    }
    else if key == 124941683 {
        26
    }
    else if key == 158690162 {
        27
    }
    else if key == 90665573 {
        28
    }
    else if key == 125072754 {
        29
    }
    else if key == 190937701 {
        30
    }
    else if key == 90728814 {
        31
    }
    else if key == 123889006 {
        32
    }
    else if key == 174681700 {
        33
    }
    else if key == 74737761 {
        34
    }
    else if key == 56846955 {
        35
    }
    else if key == 107049569 {
        36
    }
    else if key == 124806514 {
        37
    }
    else if key == 157446753 {
        38
    }
    else {
        -1
    }
}

/// Each entry of the list is the entry at the position its key gives.
proof fn lemma_name_key_position(i: int)
    requires
        0 <= i < language_analyzer_name_list().len(),
    ensures
        position_of_name_key(name_key(language_analyzer_name_list()[i])) == i,
{
    if i == 0 {
        reveal_strlit("standard");
    } else if i == 1 {
        reveal_strlit("whitespace");
    } else if i == 2 {
        reveal_strlit("english");
    } else if i == 3 {
        reveal_strlit("french");
    } else if i == 4 {
        reveal_strlit("german");
    } else if i == 5 {
        reveal_strlit("spanish");
    } else if i == 6 {
        reveal_strlit("italian");
    } else if i == 7 {
        reveal_strlit("portuguese");
    } else if i == 8 {
        reveal_strlit("dutch");
    } else if i == 9 {
        reveal_strlit("swedish");
    } else if i == 10 {
        reveal_strlit("finnish");
    } else if i == 11 {
        reveal_strlit("danish");
    } else if i == 12 {
        reveal_strlit("norwegian");
    } else if i == 13 {
        reveal_strlit("hungarian");
    } else if i == 14 {
        reveal_strlit("romanian");
    } else if i == 15 {
        reveal_strlit("catalan");
    } else if i == 16 {
        reveal_strlit("polish");
    } else if i == 17 {
        reveal_strlit("czech");
    } else if i == 18 {
        reveal_strlit("slovak");
    } else if i == 19 {
        reveal_strlit("slovenian");
    } else if i == 20 {
        reveal_strlit("croatian");
    } else if i == 21 {
        reveal_strlit("serbian");
    } else if i == 22 {
        reveal_strlit("bulgarian");
    } else if i == 23 {
        reveal_strlit("lithuanian");
    } else if i == 24 {
        reveal_strlit("latvian");
    } else if i == 25 {
        reveal_strlit("estonian");
    } else if i == 26 {
        reveal_strlit("russian");
    } else if i == 27 {
        reveal_strlit("ukrainian");
    } else if i == 28 {
        reveal_strlit("greek");
    } else if i == 29 {
        reveal_strlit("turkish");
    } else if i == 30 {
        reveal_strlit("azerbaijani");
    } else if i == 31 {
        reveal_strlit("hindi");
    } else if i == 32 {
        reveal_strlit("bengali");
    } else if i == 33 {
        reveal_strlit("indonesian");
    } else if i == 34 {
        reveal_strlit("thai");
    } else if i == 35 {
        reveal_strlit("cjk");
    } else if i == 36 {
        reveal_strlit("arabic");
    } else if i == 37 {
        reveal_strlit("persian");
    } else if i == 38 {
        reveal_strlit("brazilian");
    }
}

/// The list holds 39 distinct names: the analyzer names of the language
/// analysis crates, each once.
pub proof fn lemma_name_list()
    ensures
        language_analyzer_name_list().len() == 39,
        language_analyzer_name_list().no_duplicates(),
        language_analyzer_name_list().contains("standard"@),
        language_analyzer_name_list().contains("whitespace"@),
        language_analyzer_name_list().contains("english"@),
        language_analyzer_name_list().contains("french"@),
        language_analyzer_name_list().contains("german"@),
        language_analyzer_name_list().contains("spanish"@),
        language_analyzer_name_list().contains("italian"@),
        language_analyzer_name_list().contains("portuguese"@),
        language_analyzer_name_list().contains("dutch"@),
        language_analyzer_name_list().contains("swedish"@),
        language_analyzer_name_list().contains("finnish"@),
        language_analyzer_name_list().contains("danish"@),
        language_analyzer_name_list().contains("norwegian"@),
        language_analyzer_name_list().contains("hungarian"@),
        language_analyzer_name_list().contains("romanian"@),
        language_analyzer_name_list().contains("catalan"@),
        language_analyzer_name_list().contains("polish"@),
        language_analyzer_name_list().contains("czech"@),
        language_analyzer_name_list().contains("slovak"@),
        language_analyzer_name_list().contains("slovenian"@),
        language_analyzer_name_list().contains("croatian"@),
        language_analyzer_name_list().contains("serbian"@),
        language_analyzer_name_list().contains("bulgarian"@),
        language_analyzer_name_list().contains("lithuanian"@),
        language_analyzer_name_list().contains("latvian"@),
        language_analyzer_name_list().contains("estonian"@),
        language_analyzer_name_list().contains("russian"@),
        language_analyzer_name_list().contains("ukrainian"@),
        language_analyzer_name_list().contains("greek"@),
        language_analyzer_name_list().contains("turkish"@),
        language_analyzer_name_list().contains("azerbaijani"@),
        language_analyzer_name_list().contains("hindi"@),
        language_analyzer_name_list().contains("bengali"@),
        language_analyzer_name_list().contains("indonesian"@),
        language_analyzer_name_list().contains("thai"@),
        language_analyzer_name_list().contains("cjk"@),
        language_analyzer_name_list().contains("arabic"@),
        language_analyzer_name_list().contains("persian"@),
        language_analyzer_name_list().contains("brazilian"@),
{
    let list = language_analyzer_name_list();
    assert forall|i: int, j: int| 0 <= i < list.len() && 0 <= j < list.len() && i != j implies list[i]
        != list[j] by {
        lemma_name_key_position(i);
        lemma_name_key_position(j);
    }
    assert(list[0] == "standard"@);
    assert(list[1] == "whitespace"@);
    assert(list[2] == "english"@);
    assert(list[3] == "french"@);
    assert(list[4] == "german"@);
    assert(list[5] == "spanish"@);
    assert(list[6] == "italian"@);
    assert(list[7] == "portuguese"@);
    assert(list[8] == "dutch"@);
    assert(list[9] == "swedish"@);
    assert(list[10] == "finnish"@);
    assert(list[11] == "danish"@);
    assert(list[12] == "norwegian"@);
    assert(list[13] == "hungarian"@);
    assert(list[14] == "romanian"@);
    assert(list[15] == "catalan"@);
    assert(list[16] == "polish"@);
    assert(list[17] == "czech"@);
    assert(list[18] == "slovak"@);
    assert(list[19] == "slovenian"@);
    assert(list[20] == "croatian"@);
    assert(list[21] == "serbian"@);
    assert(list[22] == "bulgarian"@);
    assert(list[23] == "lithuanian"@);
    assert(list[24] == "latvian"@);
    assert(list[25] == "estonian"@);
    assert(list[26] == "russian"@);
    assert(list[27] == "ukrainian"@);
    assert(list[28] == "greek"@);
    assert(list[29] == "turkish"@);
    assert(list[30] == "azerbaijani"@);
    assert(list[31] == "hindi"@);
    assert(list[32] == "bengali"@);
    assert(list[33] == "indonesian"@);
    assert(list[34] == "thai"@);
    assert(list[35] == "cjk"@);
    assert(list[36] == "arabic"@);
    assert(list[37] == "persian"@);
    assert(list[38] == "brazilian"@);
}

/// The `auto` analyzer captures only names of the list, and captures every
/// name of the list that the factory has.
pub proof fn lemma_captured_names(registered: Seq<bool>, i: int)
    requires
        0 <= i < language_analyzer_name_list().len(),
        i < registered.len(),
    ensures
        registered[i] ==> captured_names(registered).contains(language_analyzer_name_list()[i]),
        forall|name: Seq<char>|
            #[trigger] captured_names(registered).contains(name) ==> language_analyzer_name_list().contains(name),
{
}

/// A language whose analyzer is not among those the `auto` analyzer
/// captures (Tamil, Vietnamese, ...) falls back, unless an override names an
/// analyzer for it.
pub proof fn lemma_uncaptured_language_falls_back(tokenizer: AutoTokenizerView, detection: Detection)
    requires
        forall|name: Seq<char>|
            #[trigger] tokenizer.analyzers.contains(name) ==> language_analyzer_name_list().contains(name),
        !tokenizer.overrides.contains_key(code_for(detection.language)),
        !language_analyzer_name_list().contains(analyzer_for(detection.language)),
    ensures
        selection(tokenizer, Some(detection)) is None,
{
}

/// The names of the analyzers the `auto` analyzer can delegate to, in order.
pub fn language_analyzer_names() -> (r: Vec<&'static str>)
    ensures
        r@.len() == language_analyzer_name_list().len(),
        forall|i: int| 0 <= i < r@.len() ==> #[trigger] r@[i]@ == language_analyzer_name_list()[i],
{
    let mut names: Vec<&'static str> = Vec::new();
    names.push("standard");
    names.push("whitespace");
    names.push("english");
    names.push("french");
    names.push("german");
    names.push("spanish");
    names.push("italian");
    names.push("portuguese");
    names.push("dutch");
    names.push("swedish");
    names.push("finnish");
    names.push("danish");
    names.push("norwegian");
    names.push("hungarian");
    names.push("romanian");
    names.push("catalan");
    names.push("polish");
    names.push("czech");
    names.push("slovak");
    names.push("slovenian");
    names.push("croatian");
    names.push("serbian");
    names.push("bulgarian");
    names.push("lithuanian");
    names.push("latvian");
    names.push("estonian");
    names.push("russian");
    names.push("ukrainian");
    names.push("greek");
    names.push("turkish");
    names.push("azerbaijani");
    names.push("hindi");
    names.push("bengali");
    names.push("indonesian");
    names.push("thai");
    names.push("cjk");
    names.push("arabic");
    names.push("persian");
    names.push("brazilian");
    names
}

/// The names to capture, given for each entry of `language_analyzer_names`
/// whether the factory has an analyzer under it; entries beyond the end of
/// `registered` count as not registered.
pub fn captured_analyzer_names(registered: &Vec<bool>) -> (r: AnalyzerNames)
    ensures
        analyzer_names_of(r) == captured_names(registered@),
{
    let names = language_analyzer_names();
    let count = if registered.len() < names.len() {
        registered.len()
    } else {
        names.len()
    };
    let mut captured = AnalyzerNames::new();
    let mut i: usize = 0;
    assert(analyzer_names_of(captured) =~= registered_names_below(registered@, 0));
    while i < count
        invariant
            count <= registered@.len(),
            count <= names@.len(),
            names@.len() == language_analyzer_name_list().len(),
            forall|j: int| 0 <= j < names@.len() ==> #[trigger] names@[j]@ == language_analyzer_name_list()[j],
            0 <= i <= count,
            analyzer_names_of(captured) == registered_names_below(registered@, i as int),
        decreases count - i,
    {
        if registered[i] {
            captured.insert(names[i]);
        }
        assert(names@[i as int]@ == language_analyzer_name_list()[i as int]);
        assert(analyzer_names_of(captured) =~= registered_names_below(registered@, i + 1));
        i = i + 1;
    }
    assert(analyzer_names_of(captured) =~= captured_names(registered@));
    captured
}

} // verus!
