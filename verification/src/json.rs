//! A JSON value as the library reads it: worker definitions, result
//! payloads, workspace configs and stored rows arrive in this form.
use vstd::prelude::*;
use crate::text::{str_eq, trim, trim_str};

verus! {

broadcast use vstd::string::group_string_axioms;

/// A JSON value. Numbers that fit in an `i64` are kept; other numbers are
/// only known to be numbers. Object keys are unique.
#[derive(Debug)]
pub enum Json {
    Null,
    Bool(bool),
    Int(i64),
    OtherNumber,
    Str(String),
    Array(Vec<Json>),
    Object(Vec<(String, Json)>),
}

/// The value stored under `key` among `entries`, the first match.
pub open spec fn lookup(entries: Seq<(String, Json)>, key: Seq<char>) -> Option<Json>
    decreases entries.len(),
{
    if entries.len() == 0 {
        None
    } else if entries[0].0@ == key {
        Some(entries[0].1)
    } else {
        lookup(entries.drop_first(), key)
    }
}

/// The value of field `key` of `j`; `None` when `j` is not an object or
/// has no such field.
pub open spec fn field(j: Json, key: Seq<char>) -> Option<Json> {
    match j {
        Json::Object(entries) => lookup(entries@, key),
        _ => None,
    }
}

/// The text of `j` when it is a string.
pub open spec fn as_text(j: Option<Json>) -> Option<Seq<char>> {
    match j {
        Some(Json::Str(s)) => Some(s@),
        _ => None,
    }
}

/// The text of field `key`, trimmed, when it is a string that is not blank.
pub open spec fn nonblank_field(j: Json, key: Seq<char>) -> Option<Seq<char>> {
    match as_text(field(j, key)) {
        Some(s) => if trim(s).len() > 0 {
            Some(trim(s))
        } else {
            None
        },
        None => None,
    }
}

pub open spec fn is_object(j: Json) -> bool {
    j is Object
}

proof fn lemma_lookup_step(entries: Seq<(String, Json)>, i: int, key: Seq<char>)
    requires
        0 <= i < entries.len(),
        entries[i].0@ != key,
    ensures
        lookup(entries.subrange(i, entries.len() as int), key) == lookup(
            entries.subrange(i + 1, entries.len() as int),
            key,
        ),
{
    assert(entries.subrange(i, entries.len() as int).drop_first() =~= entries.subrange(
        i + 1,
        entries.len() as int,
    ));
}

/// The value stored under `key` among `entries`; see [`lookup`].
fn lookup_exec<'a>(entries: &'a Vec<(String, Json)>, key: &str) -> (r: Option<&'a Json>)
    ensures
        match r {
            Some(v) => lookup(entries@, key@) == Some(*v),
            None => lookup(entries@, key@) is None,
        },
{
    let mut i: usize = 0;
    assert(entries@.subrange(0, entries@.len() as int) =~= entries@);
    while i < entries.len()
        invariant
            i <= entries.len(),
            lookup(entries@, key@) == lookup(entries@.subrange(i as int, entries@.len() as int), key@),
        decreases entries.len() - i,
    {
        if str_eq(entries[i].0.as_str(), key) {
            let ghost rest = entries@.subrange(i as int, entries@.len() as int);
            assert(rest[0] == entries@[i as int]);
            return Some(&entries[i].1);
        }
        proof {
            lemma_lookup_step(entries@, i as int, key@);
        }
        i = i + 1;
    }
    None
}

impl Json {
    /// Whether this value is an object.
    pub fn is_object(&self) -> (r: bool)
        ensures
            r == is_object(*self),
    {
        match self {
            Json::Object(_) => true,
            _ => false,
        }
    }

    /// The value of field `key`; see [`field`].
    pub fn get(&self, key: &str) -> (r: Option<&Json>)
        ensures
            match r {
                Some(v) => field(*self, key@) == Some(*v),
                None => field(*self, key@) is None,
            },
    {
        match self {
            Json::Object(entries) => lookup_exec(entries, key),
            _ => None,
        }
    }

    /// The text of this value when it is a string.
    pub fn as_str(&self) -> (r: Option<&str>)
        ensures
            match r {
                Some(s) => as_text(Some(*self)) == Some(s@),
                None => as_text(Some(*self)) is None,
            },
    {
        match self {
            Json::Str(s) => Some(s.as_str()),
            _ => None,
        }
    }

    /// The text of field `key`, when it is a string.
    pub fn str_field(&self, key: &str) -> (r: Option<&str>)
        ensures
            match r {
                Some(s) => as_text(field(*self, key@)) == Some(s@),
                None => as_text(field(*self, key@)) is None,
            },
    {
        match self.get(key) {
            Some(v) => v.as_str(),
            None => None,
        }
    }

    /// The trimmed text of field `key` when it is a string that is not blank.
    pub fn nonblank_field(&self, key: &str) -> (r: Option<String>)
        ensures
            match r {
                Some(s) => nonblank_field(*self, key@) == Some(s@),
                None => nonblank_field(*self, key@) is None,
            },
    {
        match self.str_field(key) {
            Some(s) => {
                let t = trim_str(s);
                if t.as_str().unicode_len() > 0 {
                    Some(t)
                } else {
                    None
                }
            },
            None => None,
        }
    }
}

} // verus!
