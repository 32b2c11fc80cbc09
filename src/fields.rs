use vstd::prelude::*;
use crate::model::DecodeError;
use crate::scalars::{
    Elapsed, Url, UtcTime, Uuid, elapsed_parsed, url_serialized, utc_normalized, uuid_parsed,
};
use crate::tree::{Tree, TreeV, entries_view, get_entry, lookup};

verus! {

/// The model of a decoding result.
pub open spec fn model_of<T: View>(r: Result<T, DecodeError>) -> Result<T::V, DecodeError> {
    match r {
        Ok(x) => Ok(x@),
        Err(e) => Err(e),
    }
}

/// An entry read as an unsigned 32-bit integer.
pub open spec fn u32_of(v: Option<TreeV>) -> Result<u32, DecodeError> {
    match v {
        None => Err(DecodeError::MissingField),
        Some(TreeV::Int(n)) => if 0 <= n <= u32::MAX {
            Ok(n as u32)
        } else {
            Err(DecodeError::TypeMismatch)
        },
        Some(_) => Err(DecodeError::TypeMismatch),
    }
}

/// An entry read as a boolean.
pub open spec fn bool_of(v: Option<TreeV>) -> Result<bool, DecodeError> {
    match v {
        None => Err(DecodeError::MissingField),
        Some(TreeV::Bool(b)) => Ok(b),
        Some(_) => Err(DecodeError::TypeMismatch),
    }
}

/// An entry read as a string.
pub open spec fn str_of(v: Option<TreeV>) -> Result<Seq<char>, DecodeError> {
    match v {
        None => Err(DecodeError::MissingField),
        Some(TreeV::Str(s)) => Ok(s),
        Some(_) => Err(DecodeError::TypeMismatch),
    }
}

/// An entry read as a string, then through a parser of its own.
pub open spec fn parsed_of<T>(v: Option<TreeV>, parse: spec_fn(Seq<char>) -> Option<T>) -> Result<
    T,
    DecodeError,
> {
    match str_of(v) {
        Err(e) => Err(e),
        Ok(s) => match parse(s) {
            Some(x) => Ok(x),
            None => Err(DecodeError::TypeMismatch),
        },
    }
}

pub open spec fn uuid_of(v: Option<TreeV>) -> Result<Uuid, DecodeError> {
    match parsed_of(v, |s: Seq<char>| uuid_parsed(s)) {
        Ok(x) => Ok(Uuid { value: x }),
        Err(e) => Err(e),
    }
}

pub open spec fn url_of(v: Option<TreeV>) -> Result<Seq<char>, DecodeError> {
    parsed_of(v, |s: Seq<char>| url_serialized(s))
}

pub open spec fn utc_of(v: Option<TreeV>) -> Result<Seq<char>, DecodeError> {
    parsed_of(v, |s: Seq<char>| utc_normalized(s))
}

pub open spec fn elapsed_of(v: Option<TreeV>) -> Result<Elapsed, DecodeError> {
    match parsed_of(v, |s: Seq<char>| elapsed_parsed(s)) {
        Ok(p) => Ok(Elapsed { secs: p.0, nanos: p.1 }),
        Err(e) => Err(e),
    }
}

/// The entry named `key`, as a model.
pub open spec fn entry(fields: &Vec<(String, Tree)>, key: &str) -> Option<TreeV> {
    lookup(entries_view(fields@), key@)
}

pub fn read_u32(fields: &Vec<(String, Tree)>, key: &str) -> (r: Result<u32, DecodeError>)
    ensures
        r == u32_of(entry(fields, key)),
{
    match get_entry(fields, key) {
        None => Err(DecodeError::MissingField),
        Some(Tree::Int(n)) => if 0 <= *n && *n <= u32::MAX as i128 {
            Ok(*n as u32)
        } else {
            Err(DecodeError::TypeMismatch)
        },
        Some(_) => Err(DecodeError::TypeMismatch),
    }
}

pub fn read_bool(fields: &Vec<(String, Tree)>, key: &str) -> (r: Result<bool, DecodeError>)
    ensures
        r == bool_of(entry(fields, key)),
{
    match get_entry(fields, key) {
        None => Err(DecodeError::MissingField),
        Some(Tree::Bool(b)) => Ok(*b),
        Some(_) => Err(DecodeError::TypeMismatch),
    }
}

/// The string under `key`, borrowed.
fn read_str<'a>(fields: &'a Vec<(String, Tree)>, key: &str) -> (r: Result<&'a String, DecodeError>)
    ensures
        match r {
            Ok(s) => str_of(entry(fields, key)) == Ok::<Seq<char>, DecodeError>(s@),
            Err(e) => str_of(entry(fields, key)) == Err::<Seq<char>, DecodeError>(e),
        },
{
    match get_entry(fields, key) {
        None => Err(DecodeError::MissingField),
        Some(Tree::Str(s)) => Ok(s),
        Some(_) => Err(DecodeError::TypeMismatch),
    }
}

pub fn read_string(fields: &Vec<(String, Tree)>, key: &str) -> (r: Result<String, DecodeError>)
    ensures
        model_of(r) == str_of(entry(fields, key)),
{
    match read_str(fields, key) {
        Ok(s) => Ok(s.clone()),
        Err(e) => Err(e),
    }
}

pub fn read_uuid(fields: &Vec<(String, Tree)>, key: &str) -> (r: Result<Uuid, DecodeError>)
    ensures
        r == uuid_of(entry(fields, key)),
{
    match read_str(fields, key) {
        Ok(s) => match Uuid::parse(s.as_str()) {
            Some(u) => Ok(u),
            None => Err(DecodeError::TypeMismatch),
        },
        Err(e) => Err(e),
    }
}

pub fn read_url(fields: &Vec<(String, Tree)>, key: &str) -> (r: Result<Url, DecodeError>)
    ensures
        model_of(r) == url_of(entry(fields, key)),
{
    match read_str(fields, key) {
        Ok(s) => match Url::parse(s.as_str()) {
            Some(u) => Ok(u),
            None => Err(DecodeError::TypeMismatch),
        },
        Err(e) => Err(e),
    }
}

pub fn read_utc(fields: &Vec<(String, Tree)>, key: &str) -> (r: Result<UtcTime, DecodeError>)
    ensures
        model_of(r) == utc_of(entry(fields, key)),
{
    match read_str(fields, key) {
        Ok(s) => match UtcTime::parse(s.as_str()) {
            Some(u) => Ok(u),
            None => Err(DecodeError::TypeMismatch),
        },
        Err(e) => Err(e),
    }
}

pub fn read_elapsed(fields: &Vec<(String, Tree)>, key: &str) -> (r: Result<Elapsed, DecodeError>)
    ensures
        r == elapsed_of(entry(fields, key)),
        r matches Ok(e) ==> e.wf(),
{
    match read_str(fields, key) {
        Ok(s) => match Elapsed::parse(s.as_str()) {
            Some(e) => Ok(e),
            None => Err(DecodeError::TypeMismatch),
        },
        Err(e) => Err(e),
    }
}

} // verus!
