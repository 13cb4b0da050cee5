//! The persisted configuration: the service credential and the directory
//! images are saved in.
use vstd::prelude::*;

use crate::json::{is_json, json_quoted, json_str_at, parses, quote, str_at};
use crate::text::{trim, trimmed};
use crate::Failure;

verus! {

/// The record's JSON text: an object with the two fields, in this order.
pub open spec fn config_json(unsplash_key: Seq<char>, default_dir: Seq<char>) -> Seq<char> {
    "{\"unsplash_key\":"@ + json_quoted(unsplash_key) + ",\"default_dir\":"@ + json_quoted(
        default_dir,
    ) + "}"@
}

/// The credential sent with each search, and the directory text that
/// destinations start with.
pub struct Config {
    pub unsplash_key: String,
    pub default_dir: String,
}

impl View for Config {
    type V = (Seq<char>, Seq<char>);

    open spec fn view(&self) -> (Seq<char>, Seq<char>) {
        (self.unsplash_key@, self.default_dir@)
    }
}

impl Config {
    /// The configuration a user gives on first run: the two answers, each
    /// with surrounding whitespace (the line end among it) removed.
    pub fn new(key_answer: &str, dir_answer: &str) -> (r: Config)
        ensures
            r@ == (trimmed(key_answer@), trimmed(dir_answer@)),
    {
        Config { unsplash_key: trim(key_answer).to_owned(), default_dir: trim(dir_answer).to_owned() }
    }

    /// The text the configuration is persisted as.
    pub fn to_json(&self) -> (r: String)
        ensures
            r@ == config_json(self@.0, self@.1),
    {
        let key = match quote(self.unsplash_key.as_str()) {
            Ok(k) => k,
            Err(_) => String::new(),
        };
        let dir = match quote(self.default_dir.as_str()) {
            Ok(d) => d,
            Err(_) => String::new(),
        };
        let text = "{\"unsplash_key\":".to_owned();
        let text = text.concat(key.as_str());
        let text = text.concat(",\"default_dir\":");
        let text = text.concat(dir.as_str());
        text.concat("}")
    }

    /// Reads a persisted configuration: the string fields `unsplash_key` and
    /// `default_dir` of a JSON document, verbatim. Any other text fails.
    pub fn set(contents: &str) -> (r: Result<Config, Failure>)
        ensures
            r is Ok <==> (json_str_at(contents@, "/unsplash_key"@) is Some && json_str_at(
                contents@,
                "/default_dir"@,
            ) is Some),
            r matches Ok(c) ==> c@ == (
                json_str_at(contents@, "/unsplash_key"@)->Some_0,
                json_str_at(contents@, "/default_dir"@)->Some_0,
            ),
            r matches Err(e) ==> e == Failure::ConfigIo,
            !is_json(contents@) ==> r is Err,
    {
        if !parses(contents) {
            return Err(Failure::ConfigIo);
        }
        let key = str_at(contents, "/unsplash_key");
        let dir = str_at(contents, "/default_dir");
        match (key, dir) {
            (Some(k), Some(d)) => Ok(Config { unsplash_key: k, default_dir: d }),
            _ => Err(Failure::ConfigIo),
        }
    }
}

} // verus!
