//! Configuration resolution and lookup.
//!
//! A configuration document is searched for in two places: a dotfile in the
//! current working directory (`.rebel`), then a dotfile in the home directory.
//! The caller reads each candidate as text and hands the texts in; resolution
//! itself is pure. A candidate that fails to parse falls through: silently for
//! the working-directory candidate, with a diagnostic owed for the home
//! candidate. If no candidate parses the configuration is absent.

use vstd::prelude::*;

use crate::json_data::{json_of, no_numbers, parse_json_text, JsonData};

verus! {

/// A resolved configuration: a parsed tree, or the absent marker when no
/// candidate parsed.
#[derive(Debug)]
pub enum Config {
    Json(JsonData),
    Absent,
}

/// The normalized option model of a configuration value. Numeric leaves are
/// deliberately not representable: a lookup that would reach one is a
/// contract violation.
#[derive(Debug)]
pub enum ConfigOpt {
    Array(Vec<ConfigOpt>),
    Boolean(bool),
    Null,
    Number(i32),
    Object(String),
    String(String),
}

/// The view of an optional candidate text.
pub open spec fn opt_text_view(text: Option<&str>) -> Option<Seq<char>> {
    match text {
        Some(t) => Some(t@),
        None => None,
    }
}

/// Whether a candidate text was read and parses to a tree.
pub open spec fn candidate_parses(text: Option<Seq<char>>) -> bool {
    text matches Some(t) && json_of(t) is Some
}

/// Which configuration the two candidate texts resolve to: the working
/// directory's candidate when it parses, else the home candidate when it
/// parses, else the absent marker.
pub open spec fn resolve_spec(cwd: Option<Seq<char>>, home: Option<Seq<char>>) -> Config {
    if candidate_parses(cwd) {
        Config::Json(json_of(cwd->0)->0)
    } else if candidate_parses(home) {
        Config::Json(json_of(home->0)->0)
    } else {
        Config::Absent
    }
}

/// Whether a parse diagnostic is owed: only when the working-directory
/// candidate yielded no tree and the home candidate was read but failed to
/// parse.
pub open spec fn home_diagnostic_spec(cwd: Option<Seq<char>>, home: Option<Seq<char>>) -> bool {
    !candidate_parses(cwd) && (home matches Some(t) && json_of(t) is None)
}

/// The value stored under `key` among object entries: the first entry with
/// that key, or a null leaf when no entry has it.
pub open spec fn lookup_entries(entries: Seq<(String, JsonData)>, key: Seq<char>) -> JsonData
    decreases entries.len(),
{
    if entries.len() == 0 {
        JsonData::Null
    } else if entries[0].0@ == key {
        entries[0].1
    } else {
        lookup_entries(entries.drop_first(), key)
    }
}

/// The value a tree holds at `key`: entries are consulted only on an object
/// tree; any other tree yields a null leaf, as does a missing key.
pub open spec fn value_at(tree: JsonData, key: Seq<char>) -> JsonData {
    match tree {
        JsonData::Object(entries, _) => lookup_entries(entries@, key),
        _ => JsonData::Null,
    }
}

/// Every element is a text leaf.
pub open spec fn all_texts(elems: Seq<JsonData>) -> bool {
    forall|i: int| 0 <= i < elems.len() ==> (#[trigger] elems[i]) is Text
}

/// The concatenation, in order, of the text elements of an array value.
pub open spec fn concat_texts(elems: Seq<JsonData>) -> Seq<char>
    decreases elems.len(),
{
    if elems.len() == 0 {
        Seq::empty()
    } else {
        concat_texts(elems.drop_last()) + (match elems.last() {
            JsonData::Text(s) => s@,
            _ => Seq::empty(),
        })
    }
}

/// What a lookup projects a value to: a text leaf maps to itself, an object
/// leaf to its serialized text, an array to the concatenation of its text
/// elements; every other leaf yields no value.
pub open spec fn map_value(value: JsonData) -> Option<Seq<char>> {
    match value {
        JsonData::Text(s) => Some(s@),
        JsonData::Object(_, dump) => Some(dump@),
        JsonData::Array(elems) => Some(concat_texts(elems@)),
        _ => None,
    }
}

/// The admissible inputs of [`Config::map`]: when the value at `key` is an
/// array, a non-text element in it is a contract violation.
pub open spec fn map_ok_at(config: Config, key: Seq<char>) -> bool {
    match config {
        Config::Json(tree) => match value_at(tree, key) {
            JsonData::Array(elems) => all_texts(elems@),
            _ => true,
        },
        Config::Absent => true,
    }
}

/// What [`Config::map`] returns.
pub open spec fn map_spec(config: Config, key: Seq<char>) -> Option<Seq<char>> {
    match config {
        Config::Json(tree) => map_value(value_at(tree, key)),
        Config::Absent => None,
    }
}

/// The admissible inputs of [`Config::map_opt`]: a numeric leaf anywhere in
/// the subtree at `key` is a contract violation.
pub open spec fn map_opt_ok_at(config: Config, key: Seq<char>) -> bool {
    match config {
        Config::Json(tree) => no_numbers(value_at(tree, key)),
        Config::Absent => true,
    }
}

/// How a configuration value corresponds to its option model.
pub open spec fn opt_matches(value: JsonData, opt: ConfigOpt) -> bool
    decreases value,
{
    match value {
        JsonData::Null => opt is Null,
        JsonData::Boolean(b) => opt matches ConfigOpt::Boolean(c) && c == b,
        JsonData::Number => false,
        JsonData::Text(s) => opt matches ConfigOpt::String(t) && t@ == s@,
        JsonData::Object(_, dump) => opt matches ConfigOpt::Object(d) && d@ == dump@,
        JsonData::Array(elems) => opt matches ConfigOpt::Array(opts) && opts@.len() == elems@.len()
            && (forall|i: int|
                0 <= i < elems@.len() ==> opt_matches(#[trigger] elems@[i], opts@[i])),
    }
}

/// Law: when both the working-directory and the home candidate parse, the
/// working-directory candidate's tree is used, whatever the home candidate
/// holds.
pub proof fn lemma_cwd_candidate_precedence(cwd: Seq<char>, home: Seq<char>)
    requires
        json_of(cwd) is Some,
    ensures
        resolve_spec(Some(cwd), Some(home)) == Config::Json(json_of(cwd)->0),
        !home_diagnostic_spec(Some(cwd), Some(home)),
{
}

proof fn lemma_lookup_entries_found(entries: Seq<(String, JsonData)>, key: Seq<char>, i: int)
    requires
        0 <= i < entries.len(),
        entries[i].0@ == key,
        forall|j: int| 0 <= j < i ==> #[trigger] entries[j].0@ != key,
    ensures
        lookup_entries(entries, key) == entries[i].1,
    decreases i,
{
    if i > 0 {
        lemma_lookup_entries_found(entries.drop_first(), key, i - 1);
    }
}

proof fn lemma_lookup_entries_absent(entries: Seq<(String, JsonData)>, key: Seq<char>)
    requires
        forall|j: int| 0 <= j < entries.len() ==> #[trigger] entries[j].0@ != key,
    ensures
        lookup_entries(entries, key) == JsonData::Null,
    decreases entries.len(),
{
    if entries.len() > 0 {
        lemma_lookup_entries_absent(entries.drop_first(), key);
    }
}

/// Whether two texts hold the same characters.
pub fn str_eq(a: &str, b: &str) -> (r: bool)
    ensures
        r == (a@ == b@),
{
    let owned_a = String::from_str(a);
    let owned_b = String::from_str(b);
    owned_a == owned_b
}

/// A borrow of the value the tree holds at `key`, when one is stored there.
#[verifier::loop_isolation(false)]
pub(crate) fn find_value<'a>(tree: &'a JsonData, key: &str) -> (r: Option<&'a JsonData>)
    ensures
        match r {
            Some(v) => *v == value_at(*tree, key@),
            None => value_at(*tree, key@) == JsonData::Null,
        },
{
    match tree {
        JsonData::Object(entries, _) => {
            let mut i: usize = 0;
            while i < entries.len()
                invariant
                    0 <= i <= entries@.len(),
                    forall|j: int| 0 <= j < i ==> #[trigger] entries@[j].0@ != key@,
                decreases entries@.len() - i,
            {
                if str_eq(entries[i].0.as_str(), key) {
                    proof {
                        lemma_lookup_entries_found(entries@, key@, i as int);
                    }
                    return Some(&entries[i].1);
                }
                i = i + 1;
            }
            proof {
                lemma_lookup_entries_absent(entries@, key@);
            }
            None
        },
        _ => None,
    }
}

/// Whether every element of an array value is a text leaf.
pub(crate) fn all_texts_check(elems: &Vec<JsonData>) -> (r: bool)
    ensures
        r == all_texts(elems@),
{
    let mut i: usize = 0;
    let mut ok: bool = true;
    while i < elems.len() && ok
        invariant
            0 <= i <= elems@.len(),
            ok == forall|j: int| 0 <= j < i ==> (#[trigger] elems@[j]) is Text,
        decreases elems@.len() - i,
    {
        ok = matches!(&elems[i], JsonData::Text(_));
        i = i + 1;
    }
    ok
}

/// Builds the concatenation of the text elements of an array value.
pub(crate) fn concat_text_elems(elems: &Vec<JsonData>) -> (r: String)
    requires
        all_texts(elems@),
    ensures
        r@ == concat_texts(elems@),
{
    let mut out = String::new();
    let mut i: usize = 0;
    while i < elems.len()
        invariant
            0 <= i <= elems@.len(),
            all_texts(elems@),
            out@ == concat_texts(elems@.subrange(0, i as int)),
        decreases elems@.len() - i,
    {
        match &elems[i] {
            JsonData::Text(s) => out.append(s.as_str()),
            _ => {
                proof {
                    assert(false);
                }
            },
        }
        proof {
            assert(elems@.subrange(0, i + 1).drop_last() =~= elems@.subrange(0, i as int));
            assert(elems@.subrange(0, i + 1).last() == elems@[i as int]);
        }
        i = i + 1;
    }
    proof {
        assert(elems@.subrange(0, elems@.len() as int) =~= elems@);
    }
    out
}

impl Config {
    /// Resolves the configuration from the two candidate texts, working
    /// directory first: the first candidate that parses wins; when neither
    /// does, the configuration is absent.
    pub fn new(cwd_text: Option<&str>, home_text: Option<&str>) -> (r: Config)
        ensures
            r == resolve_spec(opt_text_view(cwd_text), opt_text_view(home_text)),
    {
        if let Some(text) = cwd_text {
            if let Some(tree) = parse_json_text(text) {
                return Config::Json(tree);
            }
        }
        if let Some(text) = home_text {
            if let Some(tree) = parse_json_text(text) {
                return Config::Json(tree);
            }
        }
        Config::Absent
    }

    /// Whether resolution owes a parse diagnostic: only when the home
    /// candidate was read but failed to parse and the working-directory
    /// candidate yielded no tree.
    pub fn home_parse_diagnostic(cwd_text: Option<&str>, home_text: Option<&str>) -> (r: bool)
        ensures
            r == home_diagnostic_spec(opt_text_view(cwd_text), opt_text_view(home_text)),
    {
        let cwd_parsed = match cwd_text {
            Some(text) => parse_json_text(text).is_some(),
            None => false,
        };
        let home_failed = match home_text {
            Some(text) => parse_json_text(text).is_none(),
            None => false,
        };
        !cwd_parsed && home_failed
    }

    /// Projects the value at `key` to a string: a text leaf maps to itself,
    /// an object leaf to its serialized text, an array to the concatenation
    /// of its text elements in order; other values yield nothing, as does an
    /// absent configuration.
    pub fn map(&self, key: &str) -> (r: Option<String>)
        requires
            map_ok_at(*self, key@),
        ensures
            match r {
                Some(s) => map_spec(*self, key@) matches Some(t) && s@ == t,
                None => map_spec(*self, key@) is None,
            },
    {
        match self {
            Config::Absent => None,
            Config::Json(tree) => match find_value(tree, key) {
                None => None,
                Some(value) => match value {
                    JsonData::Text(s) => Some(s.clone()),
                    JsonData::Object(_, dump) => Some(dump.clone()),
                    JsonData::Array(elems) => Some(concat_text_elems(elems)),
                    _ => None,
                },
            },
        }
    }

    /// Whether [`Config::map`] may be asked for `key`: the value there is not
    /// an array holding a non-text element.
    pub fn map_ok(&self, key: &str) -> (r: bool)
        ensures
            r == map_ok_at(*self, key@),
    {
        match self {
            Config::Absent => true,
            Config::Json(tree) => match find_value(tree, key) {
                None => true,
                Some(value) => match value {
                    JsonData::Array(elems) => all_texts_check(elems),
                    _ => true,
                },
            },
        }
    }

    /// Converts a configuration value to its option model. A numeric leaf
    /// anywhere in the value is a contract violation.
    #[verifier::loop_isolation(false)]
    pub fn json_opt(&self, value: &JsonData) -> (r: ConfigOpt)
        requires
            no_numbers(*value),
        ensures
            opt_matches(*value, r),
        decreases *value,
    {
        match value {
            JsonData::Null => ConfigOpt::Null,
            JsonData::Boolean(b) => ConfigOpt::Boolean(*b),
            JsonData::Number => {
                proof {
                    assert(false);
                }
                ConfigOpt::Null
            },
            JsonData::Text(s) => ConfigOpt::String(s.clone()),
            JsonData::Object(_, dump) => ConfigOpt::Object(dump.clone()),
            JsonData::Array(elems) => {
                let mut opts: Vec<ConfigOpt> = Vec::new();
                let mut i: usize = 0;
                while i < elems.len()
                    invariant
                        0 <= i <= elems@.len(),
                        opts@.len() == i,
                        forall|j: int|
                            0 <= j < i ==> opt_matches(#[trigger] elems@[j], opts@[j]),
                    decreases elems@.len() - i,
                {
                    proof {
                        assert(decreases_to!(*value => *elems));
                        assert(decreases_to!(*elems => elems@));
                        assert(decreases_to!(elems@ => elems@[i as int]));
                    }
                    let opt = self.json_opt(&elems[i]);
                    opts.push(opt);
                    i = i + 1;
                }
                ConfigOpt::Array(opts)
            },
        }
    }

    /// Converts the value at `key` to the option model; an absent
    /// configuration yields nothing. A numeric leaf anywhere in the subtree
    /// at `key` is a contract violation.
    pub fn map_opt(&self, key: &str) -> (r: Option<ConfigOpt>)
        requires
            map_opt_ok_at(*self, key@),
        ensures
            match self {
                Config::Json(tree) => r matches Some(o) && opt_matches(value_at(*tree, key@), o),
                Config::Absent => r is None,
            },
    {
        match self {
            Config::Absent => None,
            Config::Json(tree) => match find_value(tree, key) {
                None => Some(ConfigOpt::Null),
                Some(value) => Some(self.json_opt(value)),
            },
        }
    }

    /// Whether [`Config::map_opt`] may be asked for `key`: no numeric leaf
    /// stands in the subtree there.
    pub fn map_opt_ok(&self, key: &str) -> (r: bool)
        ensures
            r == map_opt_ok_at(*self, key@),
    {
        match self {
            Config::Absent => true,
            Config::Json(tree) => match find_value(tree, key) {
                None => true,
                Some(value) => crate::json_data::check_no_numbers(value),
            },
        }
    }
}

} // verus!
