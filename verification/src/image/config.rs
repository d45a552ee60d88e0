//! The standalone listener's configuration. It is resolved the same way as
//! the editor's, but from a different dotfile basename (`.listener`, not
//! `.rebel`): the two defaults are distinct and not interchangeable. Its
//! lookup projects values the same way as the editor's.

use vstd::prelude::*;

use crate::config::{
    all_texts, all_texts_check, candidate_parses, concat_text_elems, find_value,
    home_diagnostic_spec, map_value, opt_text_view, value_at,
};
use crate::json_data::{json_of, parse_json_text, JsonData};

verus! {

/// The standalone listener's resolved configuration.
#[derive(Debug)]
pub enum Config {
    Json(JsonData),
    Absent,
}

/// Which configuration the two candidate texts resolve to, working directory
/// first.
pub open spec fn resolve_spec(cwd: Option<Seq<char>>, home: Option<Seq<char>>) -> Config {
    if candidate_parses(cwd) {
        Config::Json(json_of(cwd->0)->0)
    } else if candidate_parses(home) {
        Config::Json(json_of(home->0)->0)
    } else {
        Config::Absent
    }
}

/// What the listener's lookup projects a value to: a text leaf to itself, an
/// object leaf to its serialized text, an array to the concatenation of its
/// text elements.
pub open spec fn map_spec(config: Config, key: Seq<char>) -> Option<Seq<char>> {
    match config {
        Config::Json(tree) => map_value(value_at(tree, key)),
        Config::Absent => None,
    }
}

/// The admissible inputs of [`Config::map`]: when the value at `key` is an
/// array, a non-text element in it is a contract violation.
pub open spec fn map_ok_at(config: Config, key: Seq<char>) -> bool {
    match config {
        Config::Json(tree) => match value_at(tree, key) {
            JsonData::Array(elems) => all_texts(elems@),
            _ => true,
        },
        Config::Absent => true,
    }
}

impl Config {
    /// Resolves the configuration from the two candidate texts, working
    /// directory first: the first candidate that parses wins.
    pub fn new(cwd_text: Option<&str>, home_text: Option<&str>) -> (r: Config)
        ensures
            r == resolve_spec(opt_text_view(cwd_text), opt_text_view(home_text)),
    {
        if let Some(text) = cwd_text {
            if let Some(tree) = parse_json_text(text) {
                return Config::Json(tree);
            }
        }
        if let Some(text) = home_text {
            if let Some(tree) = parse_json_text(text) {
                return Config::Json(tree);
            }
        }
        Config::Absent
    }

    /// Whether resolution owes a parse diagnostic for the home candidate.
    pub fn home_parse_diagnostic(cwd_text: Option<&str>, home_text: Option<&str>) -> (r: bool)
        ensures
            r == home_diagnostic_spec(opt_text_view(cwd_text), opt_text_view(home_text)),
    {
        let cwd_parsed = match cwd_text {
            Some(text) => parse_json_text(text).is_some(),
            None => false,
        };
        let home_failed = match home_text {
            Some(text) => parse_json_text(text).is_none(),
            None => false,
        };
        !cwd_parsed && home_failed
    }

    /// Projects the value at `key` to a string: a text leaf maps to itself,
    /// an object leaf to its serialized text, an array to the concatenation
    /// of its text elements in order; other values yield nothing, as does an
    /// absent configuration.
    pub fn map(&self, key: &str) -> (r: Option<String>)
        requires
            map_ok_at(*self, key@),
        ensures
            match r {
                Some(s) => map_spec(*self, key@) matches Some(t) && s@ == t,
                None => map_spec(*self, key@) is None,
            },
    {
        match self {
            Config::Absent => None,
            Config::Json(tree) => match find_value(tree, key) {
                None => None,
                Some(value) => match value {
                    JsonData::Text(s) => Some(s.clone()),
                    JsonData::Object(_, dump) => Some(dump.clone()),
                    JsonData::Array(elems) => Some(concat_text_elems(elems)),
                    _ => None,
                },
            },
        }
    }

    /// Whether [`Config::map`] may be asked for `key`: the value there is not
    /// an array holding a non-text element.
    pub fn map_ok(&self, key: &str) -> (r: bool)
        ensures
            r == map_ok_at(*self, key@),
    {
        match self {
            Config::Absent => true,
            Config::Json(tree) => match find_value(tree, key) {
                None => true,
                Some(value) => match value {
                    JsonData::Array(elems) => all_texts_check(elems),
                    _ => true,
                },
            },
        }
    }
}

} // verus!
