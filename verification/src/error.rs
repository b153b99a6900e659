//! The error channel between host and scripts.

use vstd::prelude::*;
use vstd::string::StringExecFns;
use crate::text::{chain, chained, decimal, decimal_text, texts};

verus! {

/// The classes of failure the binding layer distinguishes.
#[derive(Clone, Copy, PartialEq, Eq, Structural, Debug)]
pub enum ErrorKind {
    /// Wrong type, arity or position of an argument.
    Argument,
    /// Raised by script code or propagated from a failed native call.
    Runtime,
    /// Bytes were not valid text where text was required.
    Conversion,
    /// A failure of the operating system.
    Resource,
    /// Stack imbalance or double registration: a defect of the binding layer itself.
    Protocol,
    /// Userdata accessed as the wrong class.
    ClassMismatch,
}

/// What becomes of an error that reaches the boundary with the runtime.
#[derive(Clone, Copy, PartialEq, Eq, Structural, Debug)]
pub enum Disposition {
    /// Raised into the runtime, where a protected call may catch it.
    Raise,
    /// Fatal: the stack-balance invariant is already violated.
    Abort,
}

impl ErrorKind {
    /// Every kind but [`ErrorKind::Protocol`] is raised; a protocol error aborts.
    pub open spec fn spec_disposition(self) -> Disposition {
        if self == ErrorKind::Protocol {
            Disposition::Abort
        } else {
            Disposition::Raise
        }
    }

    pub fn disposition(self) -> (r: Disposition)
        ensures
            r == self.spec_disposition(),
    {
        match self {
            ErrorKind::Protocol => Disposition::Abort,
            _ => Disposition::Raise,
        }
    }
}

/// Represents an error when Lua function that defined on Rust side fails.
#[derive(Debug)]
pub struct LuaError {
    msg: String,
    src: Vec<String>,
}

impl LuaError {
    /// The message of the error itself.
    pub closed spec fn message(&self) -> Seq<char> {
        self.msg@
    }

    /// The messages of the chain of causes, nearest cause first.
    pub closed spec fn causes(&self) -> Seq<Seq<char>> {
        texts(self.src@)
    }

    /// The one message the runtime receives: the error's own message followed by each cause
    /// in turn, every one introduced by `" -> "`.
    pub open spec fn formatted(&self) -> Seq<char> {
        chained(self.message(), " -> "@, self.causes())
    }

    /// `msg` are typically concise lowercase sentences without trailing punctuation (e.g. `failed
    /// to open 'foo'`).
    pub fn new(msg: &str) -> (r: Self)
        ensures
            r.message() == msg@,
            r.causes() == Seq::<Seq<char>>::empty(),
    {
        let r = Self { msg: String::from_str(msg), src: Vec::new() };
        r
    }

    /// `msg` are typically concise lowercase sentences without trailing punctuation (e.g. `failed
    /// to open 'foo'`). `src` holds the message of the cause and of each cause behind it.
    pub fn with_source(msg: &str, src: Vec<String>) -> (r: Self)
        ensures
            r.message() == msg@,
            r.causes() == texts(src@),
    {
        Self { msg: String::from_str(msg), src }
    }

    /// The message raised into the runtime.
    pub fn to_lua(self) -> (r: String)
        ensures
            r@ == self.formatted(),
    {
        chain(self.msg, " -> ", &self.src)
    }
}

/// An argument of a native call was rejected.
#[derive(Debug)]
pub struct ArgError {
    /// Position of the offending argument, counted from 1.
    pub position: usize,
    /// Why the argument was rejected.
    pub reason: String,
}

/// The text of an argument error: `bad argument #` and the position, then the reason in
/// parentheses.
pub open spec fn arg_error_text(position: nat, reason: Seq<char>) -> Seq<char> {
    "bad argument #"@ + decimal_text(position) + " ("@ + reason + ")"@
}

impl ArgError {
    /// The class of failure this error falls under.
    pub fn kind(&self) -> (r: ErrorKind)
        ensures
            r == ErrorKind::Argument,
    {
        ErrorKind::Argument
    }

    /// The message shown for this error.
    pub fn describe(&self) -> (r: String)
        ensures
            r@ == arg_error_text(self.position as nat, self.reason@),
    {
        let mut s = String::from_str("bad argument #");
        let n = decimal(self.position as u64);
        s.append(n.as_str());
        s.append(" (");
        s.append(self.reason.as_str());
        s.append(")");
        s
    }

    /// This error as one to raise into the runtime.
    pub fn raise(&self) -> (r: LuaError)
        ensures
            r.message() == arg_error_text(self.position as nat, self.reason@),
            r.causes() == Seq::<Seq<char>>::empty(),
    {
        let text = self.describe();
        LuaError::new(text.as_str())
    }
}

} // verus!
