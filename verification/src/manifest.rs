//! What a project manifest declares: commands, their arguments and their scripts.

use vstd::prelude::*;
use rustc_hash::FxHashMap;
use vstd::string::StringExecFns;
use vstd::string::StrSliceExecFns;
use crate::text::{push_char, same_text, uppercase, uppercase_of};

verus! {

/// A manifest entry was rejected.
#[derive(Clone, Copy, PartialEq, Eq, Structural, Debug)]
pub enum ManifestError {
    /// The name is reserved for the host.
    ReservedName,
    /// The type of an argument is not one the host knows.
    UnknownType,
}

/// Name of command argument.
#[derive(Debug, PartialEq, Eq, Hash)]
pub struct ArgName(String);

impl View for ArgName {
    type V = Seq<char>;

    closed spec fn view(&self) -> Seq<char> {
        self.0@
    }
}

impl ArgName {
    /// Accepts `raw` as the name of an argument. The name `help` is reserved.
    pub fn parse(raw: &str) -> (r: Result<ArgName, ManifestError>)
        ensures
            match r {
                Ok(name) => raw@ != "help"@ && name@ == raw@,
                Err(e) => raw@ == "help"@ && e == ManifestError::ReservedName,
            },
    {
        if same_text(raw, "help") {
            return Err(ManifestError::ReservedName);
        }
        Ok(ArgName(String::from_str(raw)))
    }

    pub fn as_str(&self) -> (r: &str)
        ensures
            r@ == self@,
    {
        self.0.as_str()
    }
}

/// Type of command argument.
#[derive(Clone, Copy, PartialEq, Eq, Structural, Debug)]
pub enum ArgType {
    Bool,
    String,
}

impl ArgType {
    /// Reads the type of an argument from its name in a manifest.
    pub fn parse(raw: &str) -> (r: Result<ArgType, ManifestError>)
        ensures
            r == if raw@ == "bool"@ {
                Ok::<ArgType, ManifestError>(ArgType::Bool)
            } else if raw@ == "string"@ {
                Ok(ArgType::String)
            } else {
                Err(ManifestError::UnknownType)
            },
    {
        if same_text(raw, "bool") {
            Ok(ArgType::Bool)
        } else if same_text(raw, "string") {
            Ok(ArgType::String)
        } else {
            Err(ManifestError::UnknownType)
        }
    }
}

/// Command argument definition.
#[derive(Debug)]
pub struct CommandArg {
    pub description: String,
    pub long: Option<String>,
    pub short: Option<char>,
    pub ty: ArgType,
    pub placeholder: Option<String>,
    pub default: Option<String>,
}

impl CommandArg {
    /// The name shown for the value of the argument called `id`: the placeholder where
    /// one is given, otherwise the name in uppercase.
    pub fn value_name(&self, id: &ArgName) -> (r: String)
        ensures
            r@ == (match self.placeholder {
                Some(p) => p@,
                None => uppercase_of(id@),
            }),
    {
        match &self.placeholder {
            Some(p) => p.clone(),
            None => uppercase(id.as_str()),
        }
    }
}

/// Project command.
#[derive(Debug)]
pub struct Command {
    pub description: String,
    /// The arguments of the command, each under its name, which occurs once.
    pub args: FxHashMap<ArgName, CommandArg>,
    /// The script that carries the command out.
    pub script: Option<ScriptPath>,
}

impl Command {
    /// Whether the manifest says how the command is carried out.
    pub fn has_action(&self) -> (r: bool)
        ensures
            r == self.script is Some,
    {
        self.script.is_some()
    }
}

/// Contains data deserialized from `Project.yml`.
#[derive(Debug)]
pub struct Project {
    /// The commands of the project, each under its name, which occurs once.
    pub commands: FxHashMap<String, Command>,
}

/// The number of slashes that `raw` begins with.
pub open spec fn leading_slashes(raw: Seq<char>) -> nat
    decreases raw.len(),
{
    if raw.len() > 0 && raw[0] == '/' {
        1 + leading_slashes(raw.skip(1))
    } else {
        0
    }
}

/// `raw` with a backslash in place of every slash.
pub open spec fn backslashed(raw: Seq<char>) -> Seq<char> {
    Seq::new(
        raw.len(),
        |i: int|
            if raw[i] == '/' {
                '\\'
            } else {
                raw[i]
            },
    )
}

/// The path `raw`, which a manifest writes with slashes, as the host's platform writes it.
/// A platform of the Unix family keeps the path. Any other loses the slashes the path begins
/// with and has a backslash wherever another slash stood.
pub open spec fn native_path(raw: Seq<char>, unix: bool) -> Seq<char> {
    if unix {
        raw
    } else {
        backslashed(raw.skip(leading_slashes(raw) as int))
    }
}

proof fn lemma_leading_slashes(raw: Seq<char>, n: int)
    requires
        0 <= n <= raw.len(),
        forall|j: int| 0 <= j < n ==> raw[j] == '/',
        n == raw.len() || raw[n] != '/',
    ensures
        leading_slashes(raw) == n,
    decreases n,
{
    if n > 0 {
        let rest = raw.skip(1);
        assert forall|j: int| 0 <= j < n - 1 implies rest[j] == '/' by {
            assert(rest[j] == raw[j + 1]);
        }
        if n - 1 < rest.len() {
            assert(rest[n - 1] == raw[n]);
        }
        lemma_leading_slashes(rest, n - 1);
    }
}

/// Path of command script.
#[derive(Debug)]
pub struct ScriptPath(String);

impl View for ScriptPath {
    type V = Seq<char>;

    closed spec fn view(&self) -> Seq<char> {
        self.0@
    }
}

impl ScriptPath {
    /// Reads a script path from a manifest; `unix` tells whether the host's platform is of
    /// the Unix family.
    pub fn parse(raw: &str, unix: bool) -> (r: ScriptPath)
        ensures
            r@ == native_path(raw@, unix),
    {
        if unix {
            return ScriptPath(String::from_str(raw));
        }
        let n = raw.unicode_len();
        let mut start: usize = 0;
        while start < n && raw.get_char(start) == '/'
            invariant
                start <= n,
                n == raw@.len(),
                forall|j: int| 0 <= j < start ==> raw@[j] == '/',
            decreases n - start,
        {
            start += 1;
        }
        proof {
            lemma_leading_slashes(raw@, start as int);
        }
        let ghost rest = raw@.skip(start as int);
        let mut buf = String::new();
        let mut i: usize = start;
        while i < n
            invariant
                start <= i <= n,
                n == raw@.len(),
                rest == raw@.skip(start as int),
                buf@ == backslashed(rest).take(i - start),
            decreases n - i,
        {
            let c = raw.get_char(i);
            let out = if c == '/' {
                '\\'
            } else {
                c
            };
            assert(backslashed(rest).take(i - start + 1) == backslashed(rest).take(
                i - start,
            ).push(out));
            push_char(&mut buf, out);
            i += 1;
        }
        ScriptPath(buf)
    }

    pub fn as_str(&self) -> (r: &str)
        ensures
            r@ == self@,
    {
        self.0.as_str()
    }
}

} // verus!
