//! The hashbrown collections that an `AutoTokenizer` keeps: the names of the
//! analyzers it can delegate to, and the per-language overrides.
//!
//! hashbrown's `HashMap` and `HashSet` carry an allocator parameter bounded by
//! a trait of `allocator-api2`, so they are held in private fields of the two
//! types below; the contents of each are named by a spec function, and every
//! method that the library calls has a wrapper whose contract speaks of them.

use vstd::prelude::*;

verus! {

/// The names of the analyzers an `AutoTokenizer` can delegate to.
#[verifier::external_body]
pub struct AnalyzerNames {
    set: hashbrown::HashSet<String>,
}

/// The names held in an `AnalyzerNames`, as character sequences.
pub uninterp spec fn analyzer_names_of(names: AnalyzerNames) -> Set<Seq<char>>;

/// Overrides from a language code to the name of an analyzer.
#[verifier::external_body]
pub struct OverrideMap {
    map: hashbrown::HashMap<String, String>,
}

/// The entries of an `OverrideMap`, keys and values as character sequences.
pub uninterp spec fn override_entries(overrides: OverrideMap) -> Map<Seq<char>, Seq<char>>;

/// The empty override map.
pub open spec fn no_overrides() -> Map<Seq<char>, Seq<char>> {
    Map::empty()
}

/// `hashbrown::HashSet::new`: an empty set.
#[verifier::external_body]
fn empty_name_set() -> (r: AnalyzerNames)
    ensures
        analyzer_names_of(r) == Set::<Seq<char>>::empty(),
{
    AnalyzerNames { set: hashbrown::HashSet::new() }
}

/// `hashbrown::HashSet::insert`: afterwards the set holds `name` besides what
/// it held; the result tells whether `name` was new.
#[verifier::external_body]
fn insert_name(names: &mut AnalyzerNames, name: String) -> (r: bool)
    ensures
        analyzer_names_of(*final(names)) == analyzer_names_of(*old(names)).insert(name@),
        r == !analyzer_names_of(*old(names)).contains(name@),
{
    names.set.insert(name)
}

/// `hashbrown::HashSet::contains`, looking a `String` up by its `str`: whether
/// the set holds `name`.
#[verifier::external_body]
fn contains_name(names: &AnalyzerNames, name: &str) -> (r: bool)
    ensures
        r == analyzer_names_of(*names).contains(name@),
{
    names.set.contains(name)
}

/// `hashbrown::HashSet::clone`: a set with the same names.
#[verifier::external_body]
fn clone_name_set(names: &AnalyzerNames) -> (r: AnalyzerNames)
    ensures
        analyzer_names_of(r) == analyzer_names_of(*names),
{
    AnalyzerNames { set: names.set.clone() }
}

/// `hashbrown::HashMap::clone`: a map with the same entries.
#[verifier::external_body]
fn clone_override_map(overrides: &OverrideMap) -> (r: OverrideMap)
    ensures
        override_entries(r) == override_entries(*overrides),
{
    OverrideMap { map: overrides.map.clone() }
}

/// `hashbrown::HashMap::new`: an empty map.
#[verifier::external_body]
fn empty_override_map() -> (r: OverrideMap)
    ensures
        override_entries(r) == no_overrides(),
{
    OverrideMap { map: hashbrown::HashMap::new() }
}

/// `hashbrown::HashMap::insert`: afterwards `key` maps to `value` and every
/// other entry is unchanged; the result is the value `key` had before.
#[verifier::external_body]
fn insert_override(overrides: &mut OverrideMap, key: String, value: String) -> (r: Option<String>)
    ensures
        override_entries(*final(overrides)) == override_entries(*old(overrides)).insert(key@, value@),
        match r {
            Some(previous) => override_entries(*old(overrides)).contains_key(key@)
                && previous@ == override_entries(*old(overrides))[key@],
            None => !override_entries(*old(overrides)).contains_key(key@),
        },
{
    overrides.map.insert(key, value)
}

/// `hashbrown::HashMap::get`, looking a `String` key up by its `str`: the
/// value under `key`, if there is one.
#[verifier::external_body]
fn get_override<'a>(overrides: &'a OverrideMap, key: &str) -> (r: Option<&'a String>)
    ensures
        match r {
            Some(value) => override_entries(*overrides).contains_key(key@)
                && value@ == override_entries(*overrides)[key@],
            None => !override_entries(*overrides).contains_key(key@),
        },
{
    overrides.map.get(key)
}

impl AnalyzerNames {
    /// An empty set of names.
    pub fn new() -> (r: Self)
        ensures
            analyzer_names_of(r) == Set::<Seq<char>>::empty(),
    {
        empty_name_set()
    }

    /// Add `name`; the result tells whether it was new.
    pub fn insert(&mut self, name: &str) -> (r: bool)
        ensures
            analyzer_names_of(*final(self)) == analyzer_names_of(*old(self)).insert(name@),
            r == !analyzer_names_of(*old(self)).contains(name@),
    {
        broadcast use vstd::string::to_string_from_display_ensures_for_str;
        insert_name(self, name.to_string())
    }

    /// Whether `name` is in the set.
    pub fn contains(&self, name: &str) -> (r: bool)
        ensures
            r == analyzer_names_of(*self).contains(name@),
    {
        contains_name(self, name)
    }
}

impl Clone for AnalyzerNames {
    fn clone(&self) -> (r: Self)
        ensures
            analyzer_names_of(r) == analyzer_names_of(*self),
    {
        clone_name_set(self)
    }
}

impl Clone for OverrideMap {
    fn clone(&self) -> (r: Self)
        ensures
            override_entries(r) == override_entries(*self),
    {
        clone_override_map(self)
    }
}

impl OverrideMap {
    /// A map without overrides.
    pub fn new() -> (r: Self)
        ensures
            override_entries(r) == no_overrides(),
    {
        empty_override_map()
    }

    /// Map `lang_code` to `analyzer_name`, replacing what it mapped to before.
    pub fn insert(&mut self, lang_code: &str, analyzer_name: &str)
        ensures
            override_entries(*final(self)) == override_entries(*old(self)).insert(
                lang_code@,
                analyzer_name@,
            ),
    {
        broadcast use vstd::string::to_string_from_display_ensures_for_str;
        let _ = insert_override(self, lang_code.to_string(), analyzer_name.to_string());
    }

    /// The analyzer name that `lang_code` maps to, if any.
    pub fn get(&self, lang_code: &str) -> (r: Option<&str>)
        ensures
            match r {
                Some(name) => override_entries(*self).contains_key(lang_code@)
                    && name@ == override_entries(*self)[lang_code@],
                None => !override_entries(*self).contains_key(lang_code@),
            },
    {
        match get_override(self, lang_code) {
            Some(name) => Some(name.as_str()),
            None => None,
        }
    }
}

} // verus!
