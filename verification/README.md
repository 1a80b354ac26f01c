# pizza_analysis_auto

Automatic language detection for the analysis pipeline: whatlang detects the
language of a text, and the text goes to the analyzer registered for that
language (or to an override set for it), falling back to the `standard`
analyzer when detection fails or is not confident enough.

- `src/` is the verified library (Verus): the languages, the mapping from a
  language to its analyzer and its override code, the confidence threshold,
  the choice of analyzer, and which analyzers the `auto` analyzer captures.
  whatlang is called through a trusted wrapper; the hashbrown set and map of
  an `AutoTokenizer` are reached through trusted wrappers too.
- `app/` is the analysis engine's side: the `Tokenizer` and `TokenFilter`
  impls that run the chosen pipeline, and `register_all`.
- `tests/` runs the library with whatlang and hashbrown linked.

Confidences and thresholds are handled as the IEEE-754 bits of their `f64`
values; for values in `[0, 1]` the order of the bits is the order of the
numbers.
