//! The kinds of value the runtime distinguishes.

use vstd::prelude::*;

verus! {

/// Type of Lua value.
#[derive(Clone, Copy, PartialEq, Eq, Structural, Debug)]
pub enum Type {
    /// An index that holds no value at all.
    NoValue,
    Nil,
    Boolean,
    LightUserData,
    Number,
    String,
    Table,
    Function,
    Userdata,
    Thread,
}

impl Type {
    /// The name the runtime reports for this type in diagnostics.
    pub open spec fn spec_name(self) -> Seq<char> {
        match self {
            Type::NoValue => "no value"@,
            Type::Nil => "nil"@,
            Type::Boolean => "boolean"@,
            Type::LightUserData => "userdata"@,
            Type::Number => "number"@,
            Type::String => "string"@,
            Type::Table => "table"@,
            Type::Function => "function"@,
            Type::Userdata => "userdata"@,
            Type::Thread => "thread"@,
        }
    }

    /// The name the runtime reports for this type in diagnostics.
    pub fn name(self) -> (r: &'static str)
        ensures
            r@ == self.spec_name(),
    {
        match self {
            Type::NoValue => "no value",
            Type::Nil => "nil",
            Type::Boolean => "boolean",
            Type::LightUserData => "userdata",
            Type::Number => "number",
            Type::String => "string",
            Type::Table => "table",
            Type::Function => "function",
            Type::Userdata => "userdata",
            Type::Thread => "thread",
        }
    }
}

} // verus!
