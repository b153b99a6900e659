//! Values exchanged with the runtime and the rules for reading them as host values.

use vstd::prelude::*;
use vstd::utf8::{decode_utf8, valid_utf8};
use crate::ty::Type;

verus! {

/// A runtime value as the host sees it.
///
/// Strings are arbitrary byte sequences. Tables, functions, userdata and threads are held by
/// reference: the payload is a handle into the runtime that owns the object.
#[derive(Debug)]
pub enum Value {
    Nil,
    Boolean(bool),
    Integer(i64),
    /// A float, carried as its IEEE 754 bit pattern and never interpreted by the host.
    Float(u64),
    Str(Vec<u8>),
    Table(usize),
    Function(usize),
    UserData(usize),
    Thread(usize),
}

/// The mathematical content of a [`Value`].
pub enum ValueView {
    Nil,
    Boolean(bool),
    Integer(i64),
    Float(u64),
    Str(Seq<u8>),
    Table(usize),
    Function(usize),
    UserData(usize),
    Thread(usize),
}

impl ValueView {
    /// The type of a value.
    pub open spec fn ty(self) -> Type {
        match self {
            ValueView::Nil => Type::Nil,
            ValueView::Boolean(_) => Type::Boolean,
            ValueView::Integer(_) => Type::Number,
            ValueView::Float(_) => Type::Number,
            ValueView::Str(_) => Type::String,
            ValueView::Table(_) => Type::Table,
            ValueView::Function(_) => Type::Function,
            ValueView::UserData(_) => Type::Userdata,
            ValueView::Thread(_) => Type::Thread,
        }
    }

    /// Truthiness: everything but `nil` and `false` counts as true.
    pub open spec fn truthy(self) -> bool {
        !(self is Nil) && self != ValueView::Boolean(false)
    }
}

/// The bytes a value reads as: those of a string, and nothing for any other value.
pub open spec fn bytes_of(v: ValueView) -> Option<Seq<u8>> {
    match v {
        ValueView::Str(s) => Some(s),
        _ => None,
    }
}

/// The text a value reads as: the decoded bytes of a string of well-formed UTF-8, and
/// nothing for any other value.
pub open spec fn text_of(v: ValueView) -> Option<Seq<char>> {
    match v {
        ValueView::Str(s) => if valid_utf8(s) {
            Some(decode_utf8(s))
        } else {
            None
        },
        _ => None,
    }
}

impl View for Value {
    type V = ValueView;

    open spec fn view(&self) -> ValueView {
        match self {
            Value::Nil => ValueView::Nil,
            Value::Boolean(b) => ValueView::Boolean(*b),
            Value::Integer(i) => ValueView::Integer(*i),
            Value::Float(bits) => ValueView::Float(*bits),
            Value::Str(s) => ValueView::Str(s@),
            Value::Table(h) => ValueView::Table(*h),
            Value::Function(h) => ValueView::Function(*h),
            Value::UserData(h) => ValueView::UserData(*h),
            Value::Thread(h) => ValueView::Thread(*h),
        }
    }
}

/// Text was required but the value does not hold well-formed text.
#[derive(Debug)]
pub struct ConversionError {
    /// Type name of the value that could not be read as text.
    pub ty_name: &'static str,
}

impl ConversionError {
    /// The class of failure this error falls under.
    pub fn kind(&self) -> (r: crate::error::ErrorKind)
        ensures
            r == crate::error::ErrorKind::Conversion,
    {
        crate::error::ErrorKind::Conversion
    }
}

/// Copies a byte string.
pub fn copy_bytes(s: &[u8]) -> (r: Vec<u8>)
    ensures
        r@ == s@,
{
    let mut r: Vec<u8> = Vec::with_capacity(s.len());
    let mut i: usize = 0;
    while i < s.len()
        invariant
            i <= s.len(),
            r@ == s@.take(i as int),
        decreases s.len() - i,
    {
        r.push(s[i]);
        i += 1;
    }
    r
}

/// Whether two byte strings hold the same bytes.
pub fn bytes_eq(a: &[u8], b: &[u8]) -> (r: bool)
    ensures
        r == (a@ == b@),
{
    if a.len() != b.len() {
        return false;
    }
    let mut i: usize = 0;
    while i < a.len()
        invariant
            i <= a.len(),
            a.len() == b.len(),
            a@.take(i as int) == b@.take(i as int),
        decreases a.len() - i,
    {
        if a[i] != b[i] {
            return false;
        }
        i += 1;
    }
    assert(a@ == a@.take(a.len() as int));
    assert(b@ == b@.take(b.len() as int));
    true
}

/// Decodes `bytes` as UTF-8 text.
///
/// Wraps `String::from_utf8`: the call succeeds exactly when the bytes are well-formed UTF-8,
/// and the text it returns then decodes those same bytes.
#[verifier::external_body]
fn text_of_bytes(bytes: Vec<u8>) -> (r: Option<String>)
    ensures
        r is Some <==> valid_utf8(bytes@),
        r matches Some(s) ==> s@ == decode_utf8(bytes@),
{
    String::from_utf8(bytes).ok()
}

impl Value {
    /// A value with the same content.
    pub fn dup(&self) -> (r: Value)
        ensures
            r@ == self@,
    {
        match self {
            Value::Nil => Value::Nil,
            Value::Boolean(b) => Value::Boolean(*b),
            Value::Integer(i) => Value::Integer(*i),
            Value::Float(bits) => Value::Float(*bits),
            Value::Str(s) => Value::Str(copy_bytes(s.as_slice())),
            Value::Table(h) => Value::Table(*h),
            Value::Function(h) => Value::Function(*h),
            Value::UserData(h) => Value::UserData(*h),
            Value::Thread(h) => Value::Thread(*h),
        }
    }

    /// Whether two values have the same content. References are equal when they name the
    /// same object.
    pub fn same(&self, other: &Value) -> (r: bool)
        ensures
            r == (self@ == other@),
    {
        match (self, other) {
            (Value::Nil, Value::Nil) => true,
            (Value::Boolean(a), Value::Boolean(b)) => *a == *b,
            (Value::Integer(a), Value::Integer(b)) => *a == *b,
            (Value::Float(a), Value::Float(b)) => *a == *b,
            (Value::Str(a), Value::Str(b)) => bytes_eq(a.as_slice(), b.as_slice()),
            (Value::Table(a), Value::Table(b)) => *a == *b,
            (Value::Function(a), Value::Function(b)) => *a == *b,
            (Value::UserData(a), Value::UserData(b)) => *a == *b,
            (Value::Thread(a), Value::Thread(b)) => *a == *b,
            _ => false,
        }
    }

    /// The type of this value.
    pub fn ty(&self) -> (r: Type)
        ensures
            r == self@.ty(),
    {
        match self {
            Value::Nil => Type::Nil,
            Value::Boolean(_) => Type::Boolean,
            Value::Integer(_) => Type::Number,
            Value::Float(_) => Type::Number,
            Value::Str(_) => Type::String,
            Value::Table(_) => Type::Table,
            Value::Function(_) => Type::Function,
            Value::UserData(_) => Type::Userdata,
            Value::Thread(_) => Type::Thread,
        }
    }

    /// The name of this value's type.
    pub fn ty_name(&self) -> (r: &'static str)
        ensures
            r@ == self@.ty().spec_name(),
    {
        self.ty().name()
    }

    pub fn is_nil(&self) -> (r: bool)
        ensures
            r == (self@ is Nil),
    {
        match self {
            Value::Nil => true,
            _ => false,
        }
    }

    /// Truthiness of this value in a condition.
    pub fn to_bool(&self) -> (r: bool)
        ensures
            r == self@.truthy(),
    {
        match self {
            Value::Nil => false,
            Value::Boolean(b) => *b,
            _ => true,
        }
    }

    /// The integer this value holds. Floats and strings are not coerced: only an integer
    /// value reads as an integer.
    pub fn as_int(&self) -> (r: Option<i64>)
        ensures
            r == (match self@ {
                ValueView::Integer(i) => Some(i),
                _ => None,
            }),
    {
        match self {
            Value::Integer(i) => Some(*i),
            _ => None,
        }
    }

    /// The raw bytes of a string value.
    pub fn as_bytes(&self) -> (r: Option<&[u8]>)
        ensures
            match bytes_of(self@) {
                Some(s) => r matches Some(b) && b@ == s,
                None => r is None,
            },
    {
        match self {
            Value::Str(s) => Some(s.as_slice()),
            _ => None,
        }
    }

    /// The function this value refers to.
    pub fn as_function(&self) -> (r: Option<usize>)
        ensures
            r == (match self@ {
                ValueView::Function(h) => Some(h),
                _ => None,
            }),
    {
        match self {
            Value::Function(h) => Some(*h),
            _ => None,
        }
    }

    /// The table this value refers to.
    pub fn as_table(&self) -> (r: Option<usize>)
        ensures
            r == (match self@ {
                ValueView::Table(h) => Some(h),
                _ => None,
            }),
    {
        match self {
            Value::Table(h) => Some(*h),
            _ => None,
        }
    }

    /// Reads this value as text. Succeeds exactly for a string whose bytes are well-formed
    /// UTF-8 and then returns those bytes decoded; otherwise reports the type of the value.
    pub fn to_text(&self) -> (r: Result<String, ConversionError>)
        ensures
            match text_of(self@) {
                Some(t) => r matches Ok(got) && got@ == t,
                None => r matches Err(e) && e.ty_name@ == self@.ty().spec_name(),
            },
    {
        match self {
            Value::Str(s) => match text_of_bytes(copy_bytes(s.as_slice())) {
                Some(t) => Ok(t),
                None => Err(ConversionError { ty_name: self.ty_name() }),
            },
            _ => Err(ConversionError { ty_name: self.ty_name() }),
        }
    }
}

/// Round trip of a byte string: a string value made of any bytes reads back as exactly
/// those bytes, and reads as text exactly when they are well-formed UTF-8, in which case the
/// text is what the bytes decode to.
pub proof fn law_bytes_round_trip(bytes: Seq<u8>)
    ensures
        bytes_of(ValueView::Str(bytes)) == Some(bytes),
        text_of(ValueView::Str(bytes)) is Some <==> valid_utf8(bytes),
        valid_utf8(bytes) ==> text_of(ValueView::Str(bytes)) == Some(decode_utf8(bytes)),
        valid_utf8(bytes) ==> vstd::utf8::encode_utf8(text_of(ValueView::Str(bytes))->Some_0)
            == bytes,
{
    if valid_utf8(bytes) {
        vstd::utf8::decode_utf8_encode_utf8(bytes);
    }
}

/// Round trip of text: a string value made from text reads back as that text.
pub proof fn law_text_round_trip(text: Seq<char>)
    ensures
        text_of(ValueView::Str(vstd::utf8::encode_utf8(text))) == Some(text),
{
    vstd::utf8::encode_utf8_valid_utf8(text);
    vstd::utf8::encode_utf8_decode_utf8(text);
}

} // verus!
