use vstd::prelude::*;
use vstd::string::StringSliceAdditionalSpecFns;
use vstd::string::StrSliceExecFns;
use vstd::string::StringExecFns;

use crate::cells::{SharedCells, ValueCell};
use crate::environment::{Context, Environment, NativeFunction, NativeKind};
use crate::errors::{EnvironmentError, ValueError};
use crate::path::Path;
use crate::types::Type;
use crate::values::Value;

verus! {

broadcast use vstd::group_vstd_default;

/// Whether one character sequence occurs inside another.
pub open spec fn spec_contains_seq(s: Seq<char>, p: Seq<char>) -> bool {
    exists|i: int| 0 <= i <= s.len() - p.len() && #[trigger] s.subrange(i, i + p.len()) == p
}

/// The lowercase folding of a character sequence, as the standard
/// library computes it.
pub uninterp spec fn lower_of(s: Seq<char>) -> Seq<char>;

/// The uppercase folding of a character sequence, as the standard
/// library computes it.
pub uninterp spec fn upper_of(s: Seq<char>) -> Seq<char>;

/// A character sequence with its leading and trailing whitespace
/// removed, as the standard library computes it.
pub uninterp spec fn trim_of(s: Seq<char>) -> Seq<char>;

/// A character sequence with every occurrence of a pattern replaced, as
/// the standard library computes it.
pub uninterp spec fn replace_of(s: Seq<char>, from: Seq<char>, to: Seq<char>) -> Seq<char>;

/// The pieces a pattern splits a character sequence into, in order, as
/// the standard library computes them.
pub uninterp spec fn split_of(s: Seq<char>, p: Seq<char>) -> Seq<Seq<char>>;

/// The disjoint matches of a pattern inside a character sequence, in
/// order, as the standard library computes them.
pub uninterp spec fn matches_of(s: Seq<char>, p: Seq<char>) -> Seq<Seq<char>>;

/// The byte index of the first occurrence of a pattern, as the standard
/// library computes it.
pub uninterp spec fn find_of(s: Seq<u8>, p: Seq<u8>) -> Option<int>;

/// The byte index of the last occurrence of a pattern, as the standard
/// library computes it.
pub uninterp spec fn rfind_of(s: Seq<u8>, p: Seq<u8>) -> Option<int>;

/// Relies on str::contains: whether the pattern occurs as a contiguous
/// piece of the string.
#[verifier::external_body]
fn str_contains(s: &str, p: &str) -> (r: bool)
    ensures
        r == spec_contains_seq(s@, p@),
{
    s.contains(p)
}

/// Relies on str::to_lowercase: the result depends on the characters
/// alone, and an empty string stays empty.
#[verifier::external_body]
fn str_to_lowercase(s: &str) -> (r: String)
    ensures
        r@ == lower_of(s@),
        s@.len() == 0 ==> r@.len() == 0,
{
    s.to_lowercase()
}

/// Relies on str::to_uppercase: the result depends on the characters
/// alone, and an empty string stays empty.
#[verifier::external_body]
fn str_to_uppercase(s: &str) -> (r: String)
    ensures
        r@ == upper_of(s@),
        s@.len() == 0 ==> r@.len() == 0,
{
    s.to_uppercase()
}

/// Relies on str::trim: the result depends on the characters alone and
/// never grows the string.
#[verifier::external_body]
fn str_trim(s: &str) -> (r: String)
    ensures
        r@ == trim_of(s@),
        r@.len() <= s@.len(),
{
    s.trim().to_owned()
}

/// Relies on str::replace: the result depends on the three character
/// sequences alone.
#[verifier::external_body]
fn str_replace(s: &str, from: &str, to: &str) -> (r: String)
    ensures
        r@ == replace_of(s@, from@, to@),
{
    s.replace(from, to)
}

/// Relies on str::split: the pieces depend on the two character
/// sequences alone and come in order.
#[verifier::external_body]
fn str_split(s: &str, p: &str) -> (r: Vec<String>)
    ensures
        r.deep_view() == split_of(s@, p@),
{
    s.split(p).map(|piece: &str| piece.to_owned()).collect()
}

/// Relies on str::matches: the matches depend on the two character
/// sequences alone and come in order.
#[verifier::external_body]
fn str_matches(s: &str, p: &str) -> (r: Vec<String>)
    ensures
        r.deep_view() == matches_of(s@, p@),
{
    s.matches(p).map(|piece: &str| piece.to_owned()).collect()
}

/// Relies on str::find: the byte index of the first occurrence, within
/// the string's byte length.
#[verifier::external_body]
fn str_find(s: &str, p: &str) -> (r: Option<usize>)
    ensures
        match r {
            Some(i) => find_of(s.spec_bytes(), p.spec_bytes()) == Some(i as int) && i
                <= s.spec_bytes().len(),
            None => find_of(s.spec_bytes(), p.spec_bytes()) is None,
        },
{
    s.find(p)
}

/// Relies on str::rfind: the byte index of the last occurrence, within
/// the string's byte length.
#[verifier::external_body]
fn str_rfind(s: &str, p: &str) -> (r: Option<usize>)
    ensures
        match r {
            Some(i) => rfind_of(s.spec_bytes(), p.spec_bytes()) == Some(i as int) && i
                <= s.spec_bytes().len(),
            None => rfind_of(s.spec_bytes(), p.spec_bytes()) is None,
        },
{
    s.rfind(p)
}

/// Relies on str::starts_with: whether the pattern is a prefix.
#[verifier::external_body]
fn str_starts_with(s: &str, p: &str) -> (r: bool)
    ensures
        r == (p@.len() <= s@.len() && s@.subrange(0, p@.len() as int) == p@),
{
    s.starts_with(p)
}

/// Relies on str::ends_with: whether the pattern is a suffix.
#[verifier::external_body]
fn str_ends_with(s: &str, p: &str) -> (r: bool)
    ensures
        r == (p@.len() <= s@.len() && s@.subrange(
            s@.len() - p@.len(),
            s@.len() as int,
        ) == p@),
{
    s.ends_with(p)
}

/// Relies on Chars::nth: the character at an index as a one-character
/// string, if the string is that long.
#[verifier::external_body]
fn str_char_at(s: &str, i: usize) -> (r: Option<String>)
    ensures
        match r {
            Some(t) => i < s@.len() && t@ == seq![s@[i as int]],
            None => i >= s@.len(),
        },
{
    s.chars().nth(i).map(|c| c.to_string())
}

/// Relies on str::get: the tail from a byte offset, when the offset
/// lies on a character boundary inside the string.
#[verifier::external_body]
fn str_substring_from(s: &str, start: usize) -> (r: Option<String>)
    ensures
        match r {
            Some(t) => {
                &&& start <= s.spec_bytes().len()
                &&& vstd::utf8::encode_utf8(t@) == s.spec_bytes().subrange(
                    start as int,
                    s.spec_bytes().len() as int,
                )
            },
            None => true,
        },
{
    s.get(start..).map(|t| t.to_owned())
}

/// Relies on str::get: the piece between two byte offsets, when both
/// lie on character boundaries inside the string.
#[verifier::external_body]
fn str_substring_range(s: &str, start: usize, end: usize) -> (r: Option<String>)
    ensures
        match r {
            Some(t) => {
                &&& start <= end <= s.spec_bytes().len()
                &&& vstd::utf8::encode_utf8(t@) == s.spec_bytes().subrange(start as int, end as int)
            },
            None => true,
        },
{
    s.get(start..end).map(|t| t.to_owned())
}

/// Reads the receiver of a string native.
fn instance_string(instance: Option<&ValueCell>) -> (r: Result<&String, EnvironmentError>)
    ensures
        match r {
            Ok(s) => instance matches Some(c) && c@ == crate::cells::CellRt::Prim(
                crate::values::ValueV::Str(s@),
            ),
            Err(e) => e == EnvironmentError::FnExpectedInstance || e
                == EnvironmentError::ValueError(ValueError::InvalidValueType),
        },
{
    match instance {
        Some(cell) => match cell {
            ValueCell::Default(Value::String(s)) => Ok(s),
            _ => Err(EnvironmentError::ValueError(ValueError::InvalidValueType)),
        },
        None => Err(EnvironmentError::FnExpectedInstance),
    }
}

/// Reads a string argument through its path.
fn param_string<'a>(params: &'a Vec<Path>, i: usize, cells: &'a SharedCells) -> (r: Result<
    &'a String,
    EnvironmentError,
>)
    ensures
        r matches Err(e) ==> e == EnvironmentError::InvalidFnCall || e
            == EnvironmentError::ValueError(ValueError::WeakValue) || e
            == EnvironmentError::ValueError(ValueError::InvalidValueType),
{
    if i >= params.len() {
        return Err(EnvironmentError::InvalidFnCall);
    }
    match params[i].read(cells) {
        Ok(cell) => match cell {
            ValueCell::Default(Value::String(s)) => Ok(s),
            _ => Err(EnvironmentError::ValueError(ValueError::InvalidValueType)),
        },
        Err(e) => Err(EnvironmentError::ValueError(e)),
    }
}

/// Reads a 32-bit argument through its path.
fn param_u32(params: &Vec<Path>, i: usize, cells: &SharedCells) -> (r: Result<
    u32,
    EnvironmentError,
>)
    ensures
        r matches Err(e) ==> e == EnvironmentError::InvalidFnCall || e
            == EnvironmentError::ValueError(ValueError::WeakValue) || e
            == EnvironmentError::ValueError(ValueError::InvalidValueType),
{
    if i >= params.len() {
        return Err(EnvironmentError::InvalidFnCall);
    }
    match params[i].read(cells) {
        Ok(cell) => match cell {
            ValueCell::Default(Value::U32(n)) => Ok(*n),
            _ => Err(EnvironmentError::ValueError(ValueError::InvalidValueType)),
        },
        Err(e) => Err(EnvironmentError::ValueError(e)),
    }
}

/// Wraps an optional produced by a native.
fn some_value(v: Value) -> (r: ValueCell)
    ensures
        r@ == crate::cells::CellRt::Optional(
            Some(
                Box::new(
                    crate::cells::PtrV::Owned(
                        Box::new(crate::cells::CellRt::Prim(v@)),
                    ),
                ),
            ),
        ),
{
    ValueCell::Optional(Some(crate::cells::ValuePointer::owned(ValueCell::Default(v))))
}

/// Runs a native routine that takes only its receiver.
fn dispatch_receiver_native(kind: NativeKind, instance: Option<&ValueCell>) -> (r: Result<
    Option<ValueCell>,
    EnvironmentError,
>)
    requires
        kind == NativeKind::StringLen || kind == NativeKind::StringTrim || kind
            == NativeKind::StringToUppercase || kind == NativeKind::StringToLowercase || kind
            == NativeKind::StringToBytes || kind == NativeKind::StringIsEmpty,
    ensures
        match r {
            Ok(o) => {
                &&& kind == NativeKind::StringLen ==> (o matches Some(c) && (instance matches Some(
                    inst,
                ) && inst@ matches crate::cells::CellRt::Prim(v) && v matches
                crate::values::ValueV::Str(s) && c@ == crate::cells::CellRt::Prim(
                    crate::values::ValueV::U32(
                        (vstd::utf8::encode_utf8(s).len() % 0x1_0000_0000) as u32,
                    ),
                )))
                &&& kind == NativeKind::StringToLowercase ==> (o matches Some(c) && (instance
                    matches Some(inst) && inst@ matches crate::cells::CellRt::Prim(v) && v matches
                crate::values::ValueV::Str(s) && c@ == crate::cells::CellRt::Prim(
                    crate::values::ValueV::Str(lower_of(s)),
                )))
                &&& kind == NativeKind::StringToUppercase ==> (o matches Some(c) && (instance
                    matches Some(inst) && inst@ matches crate::cells::CellRt::Prim(v) && v matches
                crate::values::ValueV::Str(s) && c@ == crate::cells::CellRt::Prim(
                    crate::values::ValueV::Str(upper_of(s)),
                )))
                &&& kind == NativeKind::StringTrim ==> (o matches Some(c) && (instance matches Some(
                    inst,
                ) && inst@ matches crate::cells::CellRt::Prim(v) && v matches
                crate::values::ValueV::Str(s) && c@ == crate::cells::CellRt::Prim(
                    crate::values::ValueV::Str(trim_of(s)),
                )))
                &&& kind == NativeKind::StringIsEmpty ==> (o matches Some(c) && (instance matches
                Some(inst) && inst@ matches crate::cells::CellRt::Prim(v) && v matches
                crate::values::ValueV::Str(s) && c@ == crate::cells::CellRt::Prim(
                    crate::values::ValueV::Bool(s.len() == 0),
                )))
            },
            Err(e) => e != EnvironmentError::NotEnoughGas,
        },
{
    match kind {
        NativeKind::StringLen => {
            let s = match instance_string(instance) {
                Ok(s) => s,
                Err(e) => {
                    return Err(e);
                },
            };
            let t = s.as_str();
            let bytes = t.as_bytes_vec();
            let n = bytes.len();
            proof {
                assert(t@ == s@);
                assert(bytes@ == vstd::utf8::encode_utf8(s@));
            }
            let truncated: u32 = ((n as u64) % 0x1_0000_0000) as u32;
            Ok(Some(ValueCell::Default(Value::U32(truncated))))
        },
        NativeKind::StringTrim => {
            let s = match instance_string(instance) {
                Ok(s) => s,
                Err(e) => {
                    return Err(e);
                },
            };
            Ok(Some(ValueCell::Default(Value::String(str_trim(s.as_str())))))
        },
        NativeKind::StringToUppercase => {
            let s = match instance_string(instance) {
                Ok(s) => s,
                Err(e) => {
                    return Err(e);
                },
            };
            Ok(Some(ValueCell::Default(Value::String(str_to_uppercase(s.as_str())))))
        },
        NativeKind::StringToLowercase => {
            let s = match instance_string(instance) {
                Ok(s) => s,
                Err(e) => {
                    return Err(e);
                },
            };
            Ok(Some(ValueCell::Default(Value::String(str_to_lowercase(s.as_str())))))
        },
        NativeKind::StringToBytes => {
            let s = match instance_string(instance) {
                Ok(s) => s,
                Err(e) => {
                    return Err(e);
                },
            };
            let bytes = s.as_str().as_bytes_vec();
            let mut out: Vec<crate::cells::ValuePointer> = Vec::new();
            let mut i: usize = 0;
            while i < bytes.len()
                invariant
                    i <= bytes@.len(),
                decreases bytes@.len() - i,
            {
                out.push(crate::cells::ValuePointer::owned(ValueCell::Default(Value::U8(bytes[i]))));
                i += 1;
            }
            Ok(Some(ValueCell::Array(out)))
        },
        NativeKind::StringIsEmpty => {
            let s = match instance_string(instance) {
                Ok(s) => s,
                Err(e) => {
                    return Err(e);
                },
            };
            let b = s.as_str().unicode_len() == 0;
            Ok(Some(ValueCell::Default(Value::Boolean(b))))
        },
        _ => unreached(),
    }
}

/// Runs one native routine on its receiver and arguments. Every native
/// here computes from its inputs alone; the dispatch is by tag, so the
/// whole table stays in verified code.
#[verifier::rlimit(100)]
#[verifier::spinoff_prover]
pub fn dispatch_native(
    kind: NativeKind,
    instance: Option<&ValueCell>,
    params: &Vec<Path>,
    cells: &SharedCells,
) -> (r: Result<Option<ValueCell>, EnvironmentError>)
    ensures
        match r {
            Ok(o) => {
                &&& kind == NativeKind::StringLen ==> (o matches Some(c) && (instance matches Some(
                    inst,
                ) && inst@ matches crate::cells::CellRt::Prim(v) && v matches
                crate::values::ValueV::Str(s) && c@ == crate::cells::CellRt::Prim(
                    crate::values::ValueV::U32(
                        (vstd::utf8::encode_utf8(s).len() % 0x1_0000_0000) as u32,
                    ),
                )))
                &&& kind == NativeKind::StringToLowercase ==> (o matches Some(c) && (instance
                    matches Some(inst) && inst@ matches crate::cells::CellRt::Prim(v) && v matches
                crate::values::ValueV::Str(s) && c@ == crate::cells::CellRt::Prim(
                    crate::values::ValueV::Str(lower_of(s)),
                )))
                &&& kind == NativeKind::StringToUppercase ==> (o matches Some(c) && (instance
                    matches Some(inst) && inst@ matches crate::cells::CellRt::Prim(v) && v matches
                crate::values::ValueV::Str(s) && c@ == crate::cells::CellRt::Prim(
                    crate::values::ValueV::Str(upper_of(s)),
                )))
                &&& kind == NativeKind::StringTrim ==> (o matches Some(c) && (instance matches Some(
                    inst,
                ) && inst@ matches crate::cells::CellRt::Prim(v) && v matches
                crate::values::ValueV::Str(s) && c@ == crate::cells::CellRt::Prim(
                    crate::values::ValueV::Str(trim_of(s)),
                )))
                &&& kind == NativeKind::StringIsEmpty ==> (o matches Some(c) && (instance matches
                Some(inst) && inst@ matches crate::cells::CellRt::Prim(v) && v matches
                crate::values::ValueV::Str(s) && c@ == crate::cells::CellRt::Prim(
                    crate::values::ValueV::Bool(s.len() == 0),
                )))
            },
            Err(e) => e != EnvironmentError::NotEnoughGas,
        },
{
    match kind {
        NativeKind::StringLen | NativeKind::StringTrim | NativeKind::StringToUppercase
            | NativeKind::StringToLowercase | NativeKind::StringToBytes
            | NativeKind::StringIsEmpty => dispatch_receiver_native(kind, instance),
        NativeKind::StringContains => {
            let p = match param_string(params, 0, cells) {
                Ok(p) => p,
                Err(e) => {
                    return Err(e);
                },
            };
            let s = match instance_string(instance) {
                Ok(s) => s,
                Err(e) => {
                    return Err(e);
                },
            };
            let b = str_contains(s.as_str(), p.as_str());
            Ok(Some(ValueCell::Default(Value::Boolean(b))))
        },
        NativeKind::StringContainsIgnoreCase => {
            let p = match param_string(params, 0, cells) {
                Ok(p) => p,
                Err(e) => {
                    return Err(e);
                },
            };
            let s = match instance_string(instance) {
                Ok(s) => s,
                Err(e) => {
                    return Err(e);
                },
            };
            let sl = str_to_lowercase(s.as_str());
            let pl = str_to_lowercase(p.as_str());
            let b = str_contains(sl.as_str(), pl.as_str());
            Ok(Some(ValueCell::Default(Value::Boolean(b))))
        },
        NativeKind::StringIndexOf => {
            let p = match param_string(params, 0, cells) {
                Ok(p) => p,
                Err(e) => {
                    return Err(e);
                },
            };
            let s = match instance_string(instance) {
                Ok(s) => s,
                Err(e) => {
                    return Err(e);
                },
            };
            match str_find(s.as_str(), p.as_str()) {
                Some(i) => {
                    let truncated: u32 = ((i as u64) % 0x1_0000_0000) as u32;
                    Ok(Some(some_value(Value::U32(truncated))))
                },
                None => Ok(Some(ValueCell::Optional(None))),
            }
        },
        NativeKind::StringLastIndexOf => {
            let p = match param_string(params, 0, cells) {
                Ok(p) => p,
                Err(e) => {
                    return Err(e);
                },
            };
            let s = match instance_string(instance) {
                Ok(s) => s,
                Err(e) => {
                    return Err(e);
                },
            };
            match str_rfind(s.as_str(), p.as_str()) {
                Some(i) => {
                    let truncated: u32 = ((i as u64) % 0x1_0000_0000) as u32;
                    Ok(Some(some_value(Value::U32(truncated))))
                },
                None => Ok(Some(ValueCell::Optional(None))),
            }
        },
        NativeKind::StringReplace => {
            let from = match param_string(params, 0, cells) {
                Ok(p) => p,
                Err(e) => {
                    return Err(e);
                },
            };
            let to = match param_string(params, 1, cells) {
                Ok(p) => p,
                Err(e) => {
                    return Err(e);
                },
            };
            let s = match instance_string(instance) {
                Ok(s) => s,
                Err(e) => {
                    return Err(e);
                },
            };
            let out = str_replace(s.as_str(), from.as_str(), to.as_str());
            Ok(Some(ValueCell::Default(Value::String(out))))
        },
        NativeKind::StringStartsWith => {
            let p = match param_string(params, 0, cells) {
                Ok(p) => p,
                Err(e) => {
                    return Err(e);
                },
            };
            let s = match instance_string(instance) {
                Ok(s) => s,
                Err(e) => {
                    return Err(e);
                },
            };
            let b = str_starts_with(s.as_str(), p.as_str());
            Ok(Some(ValueCell::Default(Value::Boolean(b))))
        },
        NativeKind::StringEndsWith => {
            let p = match param_string(params, 0, cells) {
                Ok(p) => p,
                Err(e) => {
                    return Err(e);
                },
            };
            let s = match instance_string(instance) {
                Ok(s) => s,
                Err(e) => {
                    return Err(e);
                },
            };
            let b = str_ends_with(s.as_str(), p.as_str());
            Ok(Some(ValueCell::Default(Value::Boolean(b))))
        },
        NativeKind::StringSplit => {
            let p = match param_string(params, 0, cells) {
                Ok(p) => p,
                Err(e) => {
                    return Err(e);
                },
            };
            let s = match instance_string(instance) {
                Ok(s) => s,
                Err(e) => {
                    return Err(e);
                },
            };
            let pieces = str_split(s.as_str(), p.as_str());
            let mut out: Vec<crate::cells::ValuePointer> = Vec::new();
            let mut rest = pieces;
            while rest.len() > 0
                decreases rest@.len(),
            {
                let piece = rest.remove(0);
                out.push(
                    crate::cells::ValuePointer::owned(ValueCell::Default(Value::String(piece))),
                );
            }
            Ok(Some(ValueCell::Array(out)))
        },
        NativeKind::StringCharAt => {
            let i = match param_u32(params, 0, cells) {
                Ok(n) => n,
                Err(e) => {
                    return Err(e);
                },
            };
            let s = match instance_string(instance) {
                Ok(s) => s,
                Err(e) => {
                    return Err(e);
                },
            };
            match str_char_at(s.as_str(), i as usize) {
                Some(out) => Ok(Some(some_value(Value::String(out)))),
                None => Ok(Some(ValueCell::Optional(None))),
            }
        },
        NativeKind::StringMatches => {
            let p = match param_string(params, 0, cells) {
                Ok(p) => p,
                Err(e) => {
                    return Err(e);
                },
            };
            let s = match instance_string(instance) {
                Ok(s) => s,
                Err(e) => {
                    return Err(e);
                },
            };
            let pieces = str_matches(s.as_str(), p.as_str());
            let mut out: Vec<crate::cells::ValuePointer> = Vec::new();
            let mut rest = pieces;
            while rest.len() > 0
                decreases rest@.len(),
            {
                let piece = rest.remove(0);
                out.push(
                    crate::cells::ValuePointer::owned(ValueCell::Default(Value::String(piece))),
                );
            }
            Ok(Some(ValueCell::Array(out)))
        },
        NativeKind::StringSubstring => {
            let start = match param_u32(params, 0, cells) {
                Ok(n) => n,
                Err(e) => {
                    return Err(e);
                },
            };
            let s = match instance_string(instance) {
                Ok(s) => s,
                Err(e) => {
                    return Err(e);
                },
            };
            match str_substring_from(s.as_str(), start as usize) {
                Some(t) => Ok(Some(some_value(Value::String(t)))),
                None => Ok(Some(ValueCell::Optional(None))),
            }
        },
        NativeKind::StringSubstringRange => {
            let start = match param_u32(params, 0, cells) {
                Ok(n) => n,
                Err(e) => {
                    return Err(e);
                },
            };
            let end = match param_u32(params, 1, cells) {
                Ok(n) => n,
                Err(e) => {
                    return Err(e);
                },
            };
            let s = match instance_string(instance) {
                Ok(s) => s,
                Err(e) => {
                    return Err(e);
                },
            };
            match str_substring_range(s.as_str(), start as usize, end as usize) {
                Some(t) => Ok(Some(some_value(Value::String(t)))),
                None => Ok(Some(ValueCell::Optional(None))),
            }
        },
    }
}

impl NativeFunction {
    /// Calls this native function record: the argument count and the
    /// receiver must match the declaration, the cost is charged first,
    /// and the routine runs only when the charge fits the budget.
    pub fn call_function(
        &self,
        instance: Option<&ValueCell>,
        params: &Vec<Path>,
        context: &mut Context,
        cells: &SharedCells,
    ) -> (r: Result<Option<ValueCell>, EnvironmentError>)
        ensures
            params@.len() != self.spec_parameters().len() || (instance is Some) != (
            self.spec_for_type() is Some) ==> (r == Err::<
                Option<ValueCell>,
                _,
            >(EnvironmentError::InvalidFnCall) && *final(context) == *old(context)),
            old(context).spec_gas_used() + self.spec_cost() > old(context).spec_gas_limit() && (
            params@.len() == self.spec_parameters().len() && (instance is Some) == (
            self.spec_for_type() is Some)) ==> (r == Err::<
                Option<ValueCell>,
                _,
            >(EnvironmentError::NotEnoughGas) && final(context).spec_gas_used() == old(
                context,
            ).spec_gas_limit()),
            params@.len() == self.spec_parameters().len() && (instance is Some) == (
            self.spec_for_type() is Some) && old(context).spec_gas_used() + self.spec_cost()
                <= old(context).spec_gas_limit() ==> final(context).spec_gas_used() == old(
                context,
            ).spec_gas_used() + self.spec_cost() && final(context).spec_charges() == old(
                context,
            ).spec_charges().push(self.spec_cost()),
            r == Err::<Option<ValueCell>, _>(EnvironmentError::NotEnoughGas) ==> final(context).spec_gas_used() == final(context).spec_gas_limit(),
            r is Ok ==> final(context).spec_gas_used() == old(context).spec_gas_used()
                + self.spec_cost() && final(context).spec_charges() == old(
                context,
            ).spec_charges().push(self.spec_cost()),
            r is Ok && old(context).wf() ==> final(context).wf(),
            old(context).wf() ==> final(context).spec_gas_used() >= old(context).spec_gas_used(),
            old(context).wf() ==> final(context).spec_gas_used() <= final(context).spec_gas_limit(),
            final(context).spec_gas_limit() == old(context).spec_gas_limit(),
    {
        if !self.accepts(instance.is_some(), params.len()) {
            return Err(EnvironmentError::InvalidFnCall);
        }
        match context.increase_gas_usage(self.cost()) {
            Ok(()) => {},
            Err(e) => {
                return Err(e);
            },
        }
        dispatch_native(self.kind(), instance, params, cells)
    }
}

/// Registers the string natives, with their receiver type, parameter
/// types, gas costs and return types.
pub fn register(env: &mut Environment)
    ensures
        final(env).spec_functions().len() == old(env).spec_functions().len() + 18,
        final(env).spec_structures() == old(env).spec_structures(),
        final(env).spec_enums() == old(env).spec_enums(),
{
    env.add_function(
        NativeFunction::new(
            Some(Type::String),
            Vec::new(),
            NativeKind::StringLen,
            1,
            Some(Type::U32),
        ),
    );
    env.add_function(
        NativeFunction::new(
            Some(Type::String),
            Vec::new(),
            NativeKind::StringTrim,
            1,
            Some(Type::String),
        ),
    );
    env.add_function(
        NativeFunction::new(
            Some(Type::String),
            one_string_parameter(),
            NativeKind::StringContains,
            1,
            Some(Type::Bool),
        ),
    );
    env.add_function(
        NativeFunction::new(
            Some(Type::String),
            one_string_parameter(),
            NativeKind::StringContainsIgnoreCase,
            1,
            Some(Type::Bool),
        ),
    );
    env.add_function(
        NativeFunction::new(
            Some(Type::String),
            Vec::new(),
            NativeKind::StringToUppercase,
            1,
            Some(Type::String),
        ),
    );
    env.add_function(
        NativeFunction::new(
            Some(Type::String),
            Vec::new(),
            NativeKind::StringToLowercase,
            1,
            Some(Type::String),
        ),
    );
    env.add_function(
        NativeFunction::new(
            Some(Type::String),
            Vec::new(),
            NativeKind::StringToBytes,
            5,
            Some(Type::Array(Box::new(Type::U8))),
        ),
    );
    env.add_function(
        NativeFunction::new(
            Some(Type::String),
            one_string_parameter(),
            NativeKind::StringIndexOf,
            3,
            Some(Type::Optional(Box::new(Type::U32))),
        ),
    );
    env.add_function(
        NativeFunction::new(
            Some(Type::String),
            one_string_parameter(),
            NativeKind::StringLastIndexOf,
            3,
            Some(Type::Optional(Box::new(Type::U32))),
        ),
    );
    env.add_function(
        NativeFunction::new(
            Some(Type::String),
            two_string_parameters(),
            NativeKind::StringReplace,
            5,
            Some(Type::String),
        ),
    );
    env.add_function(
        NativeFunction::new(
            Some(Type::String),
            one_string_parameter(),
            NativeKind::StringStartsWith,
            3,
            Some(Type::Bool),
        ),
    );
    env.add_function(
        NativeFunction::new(
            Some(Type::String),
            one_string_parameter(),
            NativeKind::StringEndsWith,
            3,
            Some(Type::Bool),
        ),
    );
    env.add_function(
        NativeFunction::new(
            Some(Type::String),
            one_string_parameter(),
            NativeKind::StringSplit,
            5,
            Some(Type::Array(Box::new(Type::String))),
        ),
    );
    env.add_function(
        NativeFunction::new(
            Some(Type::String),
            one_u32_parameter(),
            NativeKind::StringCharAt,
            1,
            Some(Type::Optional(Box::new(Type::String))),
        ),
    );
    env.add_function(
        NativeFunction::new(
            Some(Type::String),
            Vec::new(),
            NativeKind::StringIsEmpty,
            1,
            Some(Type::Bool),
        ),
    );
    env.add_function(
        NativeFunction::new(
            Some(Type::String),
            one_string_parameter(),
            NativeKind::StringMatches,
            50,
            Some(Type::Array(Box::new(Type::String))),
        ),
    );
    env.add_function(
        NativeFunction::new(
            Some(Type::String),
            one_u32_parameter(),
            NativeKind::StringSubstring,
            3,
            Some(Type::Optional(Box::new(Type::String))),
        ),
    );
    env.add_function(
        NativeFunction::new(
            Some(Type::String),
            two_u32_parameters(),
            NativeKind::StringSubstringRange,
            3,
            Some(Type::Optional(Box::new(Type::String))),
        ),
    );
}

/// One string parameter.
fn one_string_parameter() -> (r: Vec<Type>)
    ensures
        r@ =~= seq![Type::String],
{
    let mut v: Vec<Type> = Vec::new();
    v.push(Type::String);
    v
}

/// Two string parameters.
fn two_string_parameters() -> (r: Vec<Type>)
    ensures
        r@ =~= seq![Type::String, Type::String],
{
    let mut v: Vec<Type> = Vec::new();
    v.push(Type::String);
    v.push(Type::String);
    v
}

/// One 32-bit parameter.
fn one_u32_parameter() -> (r: Vec<Type>)
    ensures
        r@ =~= seq![Type::U32],
{
    let mut v: Vec<Type> = Vec::new();
    v.push(Type::U32);
    v
}

/// Two 32-bit parameters.
fn two_u32_parameters() -> (r: Vec<Type>)
    ensures
        r@ =~= seq![Type::U32, Type::U32],
{
    let mut v: Vec<Type> = Vec::new();
    v.push(Type::U32);
    v.push(Type::U32);
    v
}

} // verus!
