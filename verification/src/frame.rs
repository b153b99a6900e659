//! The view a native function has of its call: the arguments it was given and the results
//! it leaves.

use vstd::prelude::*;
use vstd::string::StringExecFns;
use vstd::utf8::{decode_utf8, encode_utf8, valid_utf8};
use crate::engine::{mismatch, mismatch_text, views};
use crate::error::ArgError;
use crate::text::{signed, signed_text};
use crate::ty::Type;
use crate::value::{copy_bytes, Value, ValueView};

verus! {

/// The arguments of one native call, by position from 1, and the results pushed so far.
///
/// A frame lives for one activation: the call consumes it and what it returns is final.
pub struct Frame {
    args: Vec<Value>,
    results: Vec<Value>,
}

/// The type name reported for argument `n` of `args`: that of the value, or `no value` where
/// the argument is missing.
pub open spec fn actual_name(args: Seq<ValueView>, n: int) -> Seq<char> {
    if 1 <= n <= args.len() {
        args[n - 1].ty().spec_name()
    } else {
        Type::NoValue.spec_name()
    }
}

/// An argument error's content.
pub open spec fn is_arg_error(e: ArgError, position: int, reason: Seq<char>) -> bool {
    e.position == position && e.reason@ == reason
}

/// The bytes a value gives where a string is expected: those of a string, and the decimal
/// notation of an integer. A float is not converted, since the host never interprets one.
pub open spec fn string_of(v: ValueView) -> Option<Seq<u8>> {
    match v {
        ValueView::Str(s) => Some(s),
        ValueView::Integer(i) => Some(encode_utf8(signed_text(i as int))),
        _ => None,
    }
}

/// What argument `n` of `args` reads as where a string is expected: its bytes, or the
/// reason for the refusal.
pub open spec fn string_arg_of(args: Seq<ValueView>, n: int) -> Result<Seq<u8>, Seq<char>> {
    if 1 <= n <= args.len() && string_of(args[n - 1]) is Some {
        Ok(string_of(args[n - 1])->Some_0)
    } else {
        Err(mismatch_text(Type::String.spec_name(), actual_name(args, n)))
    }
}

/// What argument `n` of `args` reads as where a string may be left out: nothing for `nil`,
/// and for a missing argument unless it is `required`.
pub open spec fn nilable_string_arg_of(args: Seq<ValueView>, n: int, required: bool) -> Result<
    Option<Seq<u8>>,
    Seq<char>,
> {
    if 1 <= n <= args.len() && string_of(args[n - 1]) is Some {
        Ok(string_of(args[n - 1]))
    } else if 1 <= n <= args.len() && args[n - 1] is Nil {
        Ok(None)
    } else if !(1 <= n <= args.len()) && !required {
        Ok(None)
    } else {
        Err(mismatch_text("nil or string"@, actual_name(args, n)))
    }
}

/// What bytes read as where text is expected: the text they encode, or the refusal of
/// bytes that are not well-formed UTF-8.
pub open spec fn text_of_string(s: Seq<u8>) -> Result<Seq<char>, Seq<char>> {
    if valid_utf8(s) {
        Ok(decode_utf8(s))
    } else {
        Err("expect UTF-8 string"@)
    }
}

/// What argument `n` of `args` reads as where text is expected.
pub open spec fn text_arg_of(args: Seq<ValueView>, n: int) -> Result<Seq<char>, Seq<char>> {
    match string_arg_of(args, n) {
        Ok(s) => text_of_string(s),
        Err(e) => Err(e),
    }
}

/// What argument `n` of `args` reads as where text may be left out.
pub open spec fn nilable_text_arg_of(args: Seq<ValueView>, n: int, required: bool) -> Result<
    Option<Seq<char>>,
    Seq<char>,
> {
    match nilable_string_arg_of(args, n, required) {
        Ok(Some(s)) => match text_of_string(s) {
            Ok(t) => Ok(Some(t)),
            Err(e) => Err(e),
        },
        Ok(None) => Ok(None),
        Err(e) => Err(e),
    }
}

/// Reads a value where a string is expected.
pub fn string_value(v: &Value) -> (r: Option<Vec<u8>>)
    ensures
        match string_of(v@) {
            Some(s) => r matches Some(b) && b@ == s,
            None => r is None,
        },
{
    match v {
        Value::Str(s) => Some(copy_bytes(s.as_slice())),
        Value::Integer(i) => {
            let t = signed(*i);
            Some(copy_bytes(t.as_str().as_bytes()))
        },
        _ => None,
    }
}

/// Reads bytes where text is expected.
pub fn text_value(bytes: Vec<u8>) -> (r: Result<String, String>)
    ensures
        match text_of_string(bytes@) {
            Ok(t) => r matches Ok(got) && got@ == t,
            Err(e) => r matches Err(got) && got@ == e,
        },
{
    match Value::Str(bytes).to_text() {
        Ok(t) => Ok(t),
        Err(_) => Err(String::from_str("expect UTF-8 string")),
    }
}

impl Frame {
    /// The arguments, first one at index 0.
    pub closed spec fn arguments(&self) -> Seq<ValueView> {
        views(self.args@)
    }

    /// The results pushed so far, first one at index 0.
    pub closed spec fn results(&self) -> Seq<ValueView> {
        views(self.results@)
    }

    /// Whether argument `n` is present.
    pub open spec fn has(&self, n: int) -> bool {
        1 <= n <= self.arguments().len()
    }

    /// Argument `n`.
    pub open spec fn get(&self, n: int) -> ValueView {
        self.arguments()[n - 1]
    }

    /// A frame over `args`, with no result yet.
    pub fn new(args: Vec<Value>) -> (r: Frame)
        ensures
            r.arguments() == views(args@),
            r.results() == Seq::<ValueView>::empty(),
    {
        let r = Frame { args, results: Vec::new() };
        r
    }

    /// The number of arguments.
    pub fn args(&self) -> (r: usize)
        ensures
            r == self.arguments().len(),
    {
        self.args.len()
    }

    /// Argument `n`, counted from 1; nothing where the call has fewer arguments.
    pub fn arg(&self, n: usize) -> (r: Option<&Value>)
        ensures
            match r {
                Some(v) => self.has(n as int) && v@ == self.get(n as int),
                None => !self.has(n as int),
            },
    {
        if 1 <= n && n <= self.args.len() {
            Some(&self.args[n - 1])
        } else {
            None
        }
    }

    fn type_error(&self, n: usize, expect: &str) -> (r: ArgError)
        ensures
            is_arg_error(
                r,
                n as int,
                mismatch_text(expect@, actual_name(self.arguments(), n as int)),
            ),
    {
        let actual = match self.arg(n) {
            Some(v) => v.ty_name(),
            None => Type::NoValue.name(),
        };
        ArgError { position: n, reason: mismatch(expect, actual) }
    }

    /// Reads argument `n` as an integer. Only an integer value is accepted: a float is
    /// rejected as having no integer representation, anything else as being of the wrong
    /// type.
    pub fn to_int(&self, n: usize) -> (r: Result<i64, ArgError>)
        ensures
            match r {
                Ok(i) => self.has(n as int) && self.get(n as int) == ValueView::Integer(i),
                Err(e) => {
                    &&& !(self.has(n as int) && self.get(n as int) is Integer)
                    &&& is_arg_error(
                        e,
                        n as int,
                        if self.has(n as int) && self.get(n as int) is Float {
                            "number has no integer representation"@
                        } else {
                            mismatch_text(
                                Type::Number.spec_name(),
                                actual_name(self.arguments(), n as int),
                            )
                        },
                    )
                },
            },
    {
        match self.arg(n) {
            Some(Value::Integer(i)) => Ok(*i),
            Some(Value::Float(_)) => Err(
                ArgError {
                    position: n,
                    reason: String::from_str("number has no integer representation"),
                },
            ),
            _ => Err(self.type_error(n, Type::Number.name())),
        }
    }

    /// Reads argument `n` as a byte string. An integer reads as its decimal notation.
    pub fn to_str(&self, n: usize) -> (r: Result<Vec<u8>, ArgError>)
        ensures
            match string_arg_of(self.arguments(), n as int) {
                Ok(s) => r matches Ok(b) && b@ == s,
                Err(reason) => r matches Err(e) && is_arg_error(e, n as int, reason),
            },
    {
        match self.arg(n) {
            Some(v) => match string_value(v) {
                Some(b) => Ok(b),
                None => Err(self.type_error(n, Type::String.name())),
            },
            None => Err(self.type_error(n, Type::String.name())),
        }
    }

    /// Reads argument `n` as a byte string that may be left out: `nil` reads as nothing,
    /// and so does a missing argument unless `required` is set.
    pub fn to_nilable_str(&self, n: usize, required: bool) -> (r: Result<Option<Vec<u8>>, ArgError>)
        ensures
            match nilable_string_arg_of(self.arguments(), n as int, required) {
                Ok(Some(s)) => r matches Ok(Some(b)) && b@ == s,
                Ok(None) => r matches Ok(None),
                Err(reason) => r matches Err(e) && is_arg_error(e, n as int, reason),
            },
    {
        match self.arg(n) {
            Some(v) => match string_value(v) {
                Some(b) => Ok(Some(b)),
                None => if v.is_nil() {
                    Ok(None)
                } else {
                    Err(self.type_error(n, "nil or string"))
                },
            },
            None => if required {
                Err(self.type_error(n, "nil or string"))
            } else {
                Ok(None)
            },
        }
    }

    /// Reads argument `n` as text. A string that is not well-formed UTF-8 is rejected.
    pub fn to_utf8(&self, n: usize) -> (r: Result<String, ArgError>)
        ensures
            match text_arg_of(self.arguments(), n as int) {
                Ok(t) => r matches Ok(got) && got@ == t,
                Err(reason) => r matches Err(e) && is_arg_error(e, n as int, reason),
            },
    {
        match self.to_str(n) {
            Ok(b) => match text_value(b) {
                Ok(t) => Ok(t),
                Err(reason) => Err(ArgError { position: n, reason }),
            },
            Err(e) => Err(e),
        }
    }

    /// Reads argument `n` as text that may be left out.
    pub fn to_nilable_utf8(&self, n: usize, required: bool) -> (r: Result<Option<String>, ArgError>)
        ensures
            match nilable_text_arg_of(self.arguments(), n as int, required) {
                Ok(Some(t)) => r matches Ok(Some(got)) && got@ == t,
                Ok(None) => r matches Ok(None),
                Err(reason) => r matches Err(e) && is_arg_error(e, n as int, reason),
            },
    {
        match self.to_nilable_str(n, required) {
            Ok(Some(b)) => match text_value(b) {
                Ok(t) => Ok(Some(t)),
                Err(reason) => Err(ArgError { position: n, reason }),
            },
            Ok(None) => Ok(None),
            Err(e) => Err(e),
        }
    }

    /// Reads argument `n` as a reference to a table.
    pub fn to_table(&self, n: usize) -> (r: Result<usize, ArgError>)
        ensures
            match r {
                Ok(h) => self.has(n as int) && self.get(n as int) == ValueView::Table(h),
                Err(e) => {
                    &&& !(self.has(n as int) && self.get(n as int) is Table)
                    &&& is_arg_error(
                        e,
                        n as int,
                        mismatch_text(
                            Type::Table.spec_name(),
                            actual_name(self.arguments(), n as int),
                        ),
                    )
                },
            },
    {
        match self.arg(n) {
            Some(Value::Table(h)) => Ok(*h),
            _ => Err(self.type_error(n, Type::Table.name())),
        }
    }

    /// Leaves `value` as the next result.
    pub fn push(self, value: Value) -> (r: Frame)
        ensures
            r.arguments() == self.arguments(),
            r.results() == self.results().push(value@),
    {
        let mut f = self;
        f.results.push(value);
        f
    }

    /// Ends the activation and hands out the results.
    pub fn into_results(self) -> (r: Vec<Value>)
        ensures
            views(r@) == self.results(),
    {
        self.results
    }
}

} // verus!
