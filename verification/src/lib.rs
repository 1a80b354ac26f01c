//! Automatic language detection for the analysis pipeline: the language of a
//! text is detected with whatlang, and the text goes to the analyzer that is
//! registered for that language, or to the fallback analyzer.
//!
//! | Module          | What it holds                                                  |
//! |-----------------|----------------------------------------------------------------|
//! | `language`      | `Language`, the languages whatlang tells apart                 |
//! | `detect`        | detection with whatlang, and the analyzer for each language    |
//! | `auto_analyzer` | `AutoTokenizer`, the choice of analyzer for a text             |
//! | `collections`   | the hashbrown set and map that an `AutoTokenizer` keeps        |
//! | `register`      | the analyzers the `auto` analyzer captures from the factory    |

pub mod auto_analyzer;
pub mod collections;
pub mod detect;
pub mod language;
pub mod register;

pub use auto_analyzer::AutoTokenizer;
pub use detect::{detect_language, LanguageDetectTokenFilter};
