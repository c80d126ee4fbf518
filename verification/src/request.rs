//! The provider-neutral command request that the facade and providers read.

use vstd::prelude::*;
use crate::json::{Json, field_of, str_spec};

verus! {

/// Top-level verbs of the public command surface.
#[derive(Clone, Copy, Debug, PartialEq, Eq, Structural)]
pub enum Verb {
    Status,
    Sessions,
    Inspect,
    Run,
}

/// Default maximum number of items a listing returns.
pub const DEFAULT_MAX_ITEMS: usize = 100;

/// A command request: the surface, the optional generic verb, the target and
/// argument objects, and the caller's confirmation and foreground consent.
#[derive(Debug, PartialEq)]
pub struct CommandRequest {
    pub verb: Verb,
    pub app: String,
    pub operation: Option<String>,
    pub target: Vec<(String, Json)>,
    pub args: Vec<(String, Json)>,
    pub confirmed: bool,
    pub foreground_consent: bool,
    pub max_items: usize,
}

impl CommandRequest {
    /// An unconfirmed request with empty target and arguments.
    pub fn read(verb: Verb, app: &str) -> (r: Self)
        ensures
            r.verb == verb,
            r.app@ == app@,
            r.operation is None,
            r.target@.len() == 0,
            r.args@.len() == 0,
            !r.confirmed,
            !r.foreground_consent,
            r.max_items == DEFAULT_MAX_ITEMS,
    {
        CommandRequest {
            verb,
            app: crate::text::owned(app),
            operation: None,
            target: Vec::new(),
            args: Vec::new(),
            confirmed: false,
            foreground_consent: false,
            max_items: DEFAULT_MAX_ITEMS,
        }
    }
}

/// The non-empty string member `key` of an object's members.
pub open spec fn nonempty_field(fields: Seq<(String, Json)>, key: Seq<char>) -> Option<Seq<char>> {
    match field_of(fields, key) {
        Some(v) => match str_spec(v) {
            Some(s) => if s.len() > 0 { Some(s) } else { None },
            None => None,
        },
        None => None,
    }
}

/// Reads the non-empty string member `key` of an object's members.
pub fn nonempty_field_str<'a>(fields: &'a Vec<(String, Json)>, key: &str) -> (r: Option<&'a str>)
    ensures
        match nonempty_field(fields@, key@) {
            Some(s) => r matches Some(x) && x@ == s,
            None => r is None,
        },
{
    match crate::json::fields_get(fields, key) {
        Some(v) => match v.as_str() {
            Some(s) => if s.unicode_len() > 0 { Some(s) } else { None },
            None => None,
        },
        None => None,
    }
}

} // verus!
