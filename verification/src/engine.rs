//! The runtime's value stack and the protocol the host follows on it.

use vstd::prelude::*;
use vstd::string::StringExecFns;
use vstd::string::StringSliceAdditionalSpecFns;
use crate::error::LuaError;
use crate::frame::Frame;
use crate::table::{lookup, stored, Key, KeyView, Table};
use crate::text::{signed, signed_text};
use crate::ty::Type;
use crate::value::{bytes_of, copy_bytes, text_of, ConversionError, Value, ValueView};

verus! {

/// The most slots a stack may hold.
pub const MAX_STACK: usize = 1000000;

/// Free slots every fresh stack has.
pub const MIN_STACK: usize = 20;

/// The most slots [`Engine::push_fn`] occupies while it works: the closure's allocation, its
/// metatable and the finalizer.
pub const PUSH_FN_SLOTS: usize = 3;

/// Handle of the table that holds the global variables.
pub const GLOBALS: usize = 0;

/// A callable object owned by the runtime.
#[derive(Clone, Copy, PartialEq, Eq, Structural, Debug)]
pub enum Function {
    /// A function of a library that the runtime ships with.
    Builtin,
    /// A chunk compiled from source that has not run.
    Chunk,
    /// A chunk that has run: it is dead and cannot run again.
    Done,
    /// A host closure behind a trampoline. `state` names the closure's captured state, which
    /// lives in an allocation of the runtime; `finalizer` says whether that allocation has a
    /// finalizer because the state needs teardown.
    Host { state: usize, finalizer: bool },
}

/// The contents of the values in `s`.
pub open spec fn views(s: Seq<Value>) -> Seq<ValueView> {
    Seq::new(s.len(), |i: int| s[i]@)
}

/// The bindings of the tables in `s`.
pub open spec fn table_views(s: Seq<Table>) -> Seq<Map<KeyView, ValueView>> {
    Seq::new(s.len(), |i: int| s[i]@)
}

/// Whether `index` names a slot of a stack of `top` values: positions count from 1 at the
/// bottom, negative indices count back from -1 at the top.
pub open spec fn valid_index(top: int, index: int) -> bool {
    (1 <= index <= top) || (-top <= index <= -1)
}

/// The zero-based slot that `index` names on a stack of `top` values.
pub open spec fn slot_of(top: int, index: int) -> int {
    if index > 0 {
        index - 1
    } else {
        top + index
    }
}

/// The free slots after a request for `n`: never fewer than were free before.
pub open spec fn reserved(room: nat, n: nat) -> nat {
    if room >= n {
        room
    } else {
        n
    }
}

/// The stack after an attempt to push `v`: the value is on top where the stack could grow,
/// and nothing has changed where it is full.
pub open spec fn pushed(stack: Seq<ValueView>, v: ValueView) -> Seq<ValueView> {
    if stack.len() < MAX_STACK {
        stack.push(v)
    } else {
        stack
    }
}

/// The free slots after an attempt to push one value onto a stack of `depth` values with
/// `room` free slots.
pub open spec fn room_after_push(depth: int, room: nat) -> int {
    if depth < MAX_STACK {
        reserved(room, 1) - 1
    } else {
        room as int
    }
}

/// What the host knows of the state of one interpreter: its value stack and the objects
/// that were created through the host.
#[allow(non_camel_case_types)]
pub struct lua_State {
    stack: Vec<Value>,
    room: usize,
    tables: Vec<Table>,
    functions: Vec<Function>,
}

/// Encapsulates a `lua_State`.
///
/// Any method that requires a mutable borrow of this struct changes the Lua stack or an
/// object of the runtime.
pub struct Engine(lua_State);

/// The largest exit code a script may ask for.
pub const MAX_EXIT_CODE: i64 = 99;

/// Represents an error when [`Engine`] fails.
#[derive(Debug)]
pub enum EngineError {
    /// The script file could not be read; holds the reason.
    ReadFile(String),
    /// The chunk did not compile; holds the runtime's message, which names the chunk and
    /// the line.
    LoadFile(String),
    /// The script raised an error that nothing caught; holds the message.
    RunScript(String),
    /// The script returned an integer that is no exit code.
    ConvertResult(i64),
    /// The script returned something other than `nil` or an integer; holds the name of the
    /// type.
    InvalidResult(&'static str),
    /// There is no chunk to run: none stands on top of the stack, or the one that does has
    /// run already.
    Dead,
}

/// The mathematical content of an [`EngineError`].
pub enum EngineErrorView {
    ReadFile(Seq<char>),
    LoadFile(Seq<char>),
    RunScript(Seq<char>),
    ConvertResult(i64),
    InvalidResult(Seq<char>),
    Dead,
}

impl View for EngineError {
    type V = EngineErrorView;

    open spec fn view(&self) -> EngineErrorView {
        match self {
            EngineError::ReadFile(m) => EngineErrorView::ReadFile(m@),
            EngineError::LoadFile(m) => EngineErrorView::LoadFile(m@),
            EngineError::RunScript(m) => EngineErrorView::RunScript(m@),
            EngineError::ConvertResult(v) => EngineErrorView::ConvertResult(*v),
            EngineError::InvalidResult(t) => EngineErrorView::InvalidResult(t@),
            EngineError::Dead => EngineErrorView::Dead,
        }
    }
}

impl EngineErrorView {
    /// The message shown for an error.
    pub open spec fn text(self) -> Seq<char> {
        match self {
            EngineErrorView::ReadFile(m) => "couldn't read the file -> "@ + m,
            EngineErrorView::LoadFile(m) => m,
            EngineErrorView::RunScript(m) => m,
            EngineErrorView::ConvertResult(v) => "couldn't convert script result "@
                + signed_text(v as int) + " to exit code -> result out of range"@,
            EngineErrorView::InvalidResult(t) =>
                "expect script to return either nil or integer, got "@ + t,
            EngineErrorView::Dead => "cannot run a dead chunk"@,
        }
    }
}

impl EngineError {
    /// The message shown for this error, causes included.
    pub fn describe(&self) -> (r: String)
        ensures
            r@ == self@.text(),
    {
        match self {
            EngineError::ReadFile(m) => {
                let mut s = String::from_str("couldn't read the file -> ");
                s.append(m.as_str());
                s
            },
            EngineError::LoadFile(m) => m.clone(),
            EngineError::RunScript(m) => m.clone(),
            EngineError::ConvertResult(v) => {
                let mut s = String::from_str("couldn't convert script result ");
                let n = signed(*v);
                s.append(n.as_str());
                s.append(" to exit code -> result out of range");
                s
            },
            EngineError::InvalidResult(t) => {
                let mut s = String::from_str(
                    "expect script to return either nil or integer, got ",
                );
                s.append(t);
                s
            },
            EngineError::Dead => String::from_str("cannot run a dead chunk"),
        }
    }
}

/// What a script's result means to the host: `nil` is success, an integer from 0 to 99 is
/// the exit code, any other integer is out of range and any other value is invalid.
pub open spec fn exit_code_of(v: ValueView) -> Result<u8, EngineErrorView> {
    match v {
        ValueView::Nil => Ok(0u8),
        ValueView::Integer(i) => if 0 <= i <= MAX_EXIT_CODE {
            Ok(i as u8)
        } else {
            Err(EngineErrorView::ConvertResult(i))
        },
        _ => Err(EngineErrorView::InvalidResult(v.ty().spec_name())),
    }
}

/// The content of a result that may hold an [`EngineError`].
pub open spec fn result_view<T>(r: Result<T, EngineError>) -> Result<T, EngineErrorView> {
    match r {
        Ok(v) => Ok(v),
        Err(e) => Err(e@),
    }
}

/// Decides what a script's result means to the host.
pub fn exit_code(v: &Value) -> (r: Result<u8, EngineError>)
    ensures
        result_view(r) == exit_code_of(v@),
{
    match v {
        Value::Nil => Ok(0),
        Value::Integer(i) => if 0 <= *i && *i <= MAX_EXIT_CODE {
            Ok(*i as u8)
        } else {
            Err(EngineError::ConvertResult(*i))
        },
        _ => Err(EngineError::InvalidResult(v.ty_name())),
    }
}

/// How an attempt to load a script ended, as the host found it.
#[derive(Debug)]
pub enum Loaded {
    /// The file could not be read; holds the reason.
    Unreadable(String),
    /// The runtime rejected the source; holds its message.
    Rejected(String),
    /// The runtime compiled the source into a chunk.
    Compiled,
}

/// The name under which the chunk read from `file` is known in diagnostics.
pub open spec fn chunk_name_of(file: Seq<char>) -> Seq<char> {
    "@"@ + file
}

/// The diagnostic name of the chunk read from `file`: an at sign, then the path.
pub fn chunk_name(file: &str) -> (r: String)
    ensures
        r@ == chunk_name_of(file@),
{
    let mut name = String::from_str("@");
    name.append(file);
    name
}

/// The states of the host closures in `fs` whose allocation has a finalizer, latest
/// created first.
pub open spec fn finalizers(fs: Seq<Function>) -> Seq<usize>
    decreases fs.len(),
{
    if fs.len() == 0 {
        Seq::empty()
    } else {
        match fs.last() {
            Function::Host { state, finalizer: true } => seq![state] + finalizers(
                fs.drop_last(),
            ),
            _ => finalizers(fs.drop_last()),
        }
    }
}

/// The reason given for a value of the wrong type.
pub open spec fn mismatch_text(expect: Seq<char>, actual: Seq<char>) -> Seq<char> {
    expect + " expected, got "@ + actual
}

/// The reason given for a value of the wrong type.
pub fn mismatch(expect: &str, actual: &str) -> (r: String)
    ensures
        r@ == mismatch_text(expect@, actual@),
{
    let mut s = String::from_str(expect);
    s.append(" expected, got ");
    s.append(actual);
    s
}

/// The results `rs` of a call as the caller receives them when it asked for `n`: the
/// first `n`, with `nil` in place of each one that is missing.
pub open spec fn adjusted(rs: Seq<ValueView>, n: nat) -> Seq<ValueView> {
    Seq::new(
        n,
        |i: int|
            if i < rs.len() {
                rs[i]
            } else {
                ValueView::Nil
            },
    )
}

/// What a native function left behind: its results, or the error it returned.
pub open spec fn outcome_of(out: Result<Frame, LuaError>) -> Result<Seq<ValueView>, Seq<char>> {
    match out {
        Ok(frame) => Ok(frame.results()),
        Err(e) => Err(e.formatted()),
    }
}

/// The message of an attempt to call a value of the type called `ty`, which is no function.
pub open spec fn not_callable(ty: Seq<char>) -> Seq<char> {
    "attempt to call a "@ + ty + " value"@
}

/// The message of a call whose callee `v` is not the host function that was handed in: a
/// function of another kind, or no function at all.
pub open spec fn callee_refusal(v: ValueView) -> Seq<char> {
    if v is Function {
        "attempt to call a function that is not the host function given"@
    } else {
        not_callable(v.ty().spec_name())
    }
}

/// The stack after a call with `nargs` arguments that asked for `nresults` results: the
/// function and its arguments are gone, and in their place stand exactly `nresults` values
/// on success, or the one error value on failure.
pub open spec fn after_call(
    stack: Seq<ValueView>,
    nargs: nat,
    nresults: nat,
    out: Result<Seq<ValueView>, Seq<char>>,
) -> Seq<ValueView> {
    let base = stack.take(stack.len() - nargs - 1);
    match out {
        Ok(rs) => base + adjusted(rs, nresults),
        Err(m) => base.push(ValueView::Str(vstd::utf8::encode_utf8(m))),
    }
}

/// What an engine holds.
pub struct EngineView {
    pub stack: Seq<ValueView>,
    /// The number of values that can be pushed before more room must be reserved.
    pub room: nat,
    pub tables: Seq<Map<KeyView, ValueView>>,
    pub functions: Seq<Function>,
}

/// One function that a library publishes under a name.
#[derive(Clone, Copy, Debug)]
pub struct Export {
    pub name: &'static str,
    pub function: Function,
}

/// The key under which a field called `name` is stored.
pub open spec fn field(name: &str) -> KeyView {
    KeyView::Str(name.spec_bytes())
}

/// The bindings `m` after the functions of `es` were published in order, the first of
/// them in the function object with handle `first`. A later export replaces an earlier
/// one of the same name.
pub open spec fn published(m: Map<KeyView, ValueView>, first: int, es: Seq<Export>) -> Map<
    KeyView,
    ValueView,
>
    decreases es.len(),
{
    if es.len() == 0 {
        m
    } else {
        published(m, first, es.drop_last()).insert(
            field(es.last().name),
            ValueView::Function((first + es.len() - 1) as usize),
        )
    }
}

/// The function objects that publishing `es` creates.
pub open spec fn kinds(es: Seq<Export>) -> Seq<Function> {
    Seq::new(es.len(), |i: int| es[i].function)
}

/// The functions of the default `os` library.
pub open spec fn os_library() -> Seq<Export> {
    seq![
        Export { name: "clock", function: Function::Builtin },
        Export { name: "date", function: Function::Builtin },
        Export { name: "difftime", function: Function::Builtin },
        Export { name: "execute", function: Function::Builtin },
        Export { name: "exit", function: Function::Builtin },
        Export { name: "getenv", function: Function::Builtin },
        Export { name: "remove", function: Function::Builtin },
        Export { name: "rename", function: Function::Builtin },
        Export { name: "setlocale", function: Function::Builtin },
        Export { name: "time", function: Function::Builtin },
        Export { name: "tmpname", function: Function::Builtin },
    ]
}

/// The functions of the default `os` library.
pub fn os_exports() -> (r: Vec<Export>)
    ensures
        r@ == os_library(),
{
    let mut r: Vec<Export> = Vec::new();
    r.push(Export { name: "clock", function: Function::Builtin });
    r.push(Export { name: "date", function: Function::Builtin });
    r.push(Export { name: "difftime", function: Function::Builtin });
    r.push(Export { name: "execute", function: Function::Builtin });
    r.push(Export { name: "exit", function: Function::Builtin });
    r.push(Export { name: "getenv", function: Function::Builtin });
    r.push(Export { name: "remove", function: Function::Builtin });
    r.push(Export { name: "rename", function: Function::Builtin });
    r.push(Export { name: "setlocale", function: Function::Builtin });
    r.push(Export { name: "time", function: Function::Builtin });
    r.push(Export { name: "tmpname", function: Function::Builtin });
    r
}

/// The most slots [`Engine::require_os`] occupies while it works.
pub const REQUIRE_OS_SLOTS: usize = 3;

impl Engine {
    /// The values on the stack, bottom first.
    pub closed spec fn stack(&self) -> Seq<ValueView> {
        views(self.0.stack@)
    }

    /// The number of values that can be pushed before more room must be reserved.
    pub closed spec fn room(&self) -> nat {
        self.0.room as nat
    }

    /// The bindings of every table, by handle.
    pub closed spec fn tables(&self) -> Seq<Map<KeyView, ValueView>> {
        table_views(self.0.tables@)
    }

    /// Every function object, by handle.
    pub closed spec fn functions(&self) -> Seq<Function> {
        self.0.functions@
    }

    /// What this engine holds.
    pub open spec fn view(&self) -> EngineView {
        EngineView {
            stack: self.stack(),
            room: self.room(),
            tables: self.tables(),
            functions: self.functions(),
        }
    }

    /// The stack with its reserved room fits the limit, and the table of globals exists.
    pub closed spec fn wf(&self) -> bool {
        &&& self.0.stack.len() + self.0.room <= MAX_STACK
        &&& self.0.tables.len() >= 1
        &&& forall|i: int| 0 <= i < self.0.tables.len() ==> (#[trigger] self.0.tables[i]).wf()
    }

    /// The stack depth.
    pub open spec fn depth(&self) -> int {
        self.stack().len() as int
    }

    /// The value that `index` names.
    pub open spec fn at(&self, index: int) -> ValueView {
        self.stack()[slot_of(self.depth(), index)]
    }

    /// Whether `index` names a slot that holds a reference to an existing table.
    pub open spec fn table_at(&self, index: int) -> bool {
        &&& valid_index(self.depth(), index)
        &&& self.at(index) matches ValueView::Table(h)
        &&& h < self.tables().len()
    }

    /// The handle of the table that `index` names.
    pub open spec fn handle_at(&self, index: int) -> int {
        match self.at(index) {
            ValueView::Table(h) => h as int,
            _ => 0,
        }
    }

    /// Limits that hold of every well-formed engine.
    pub proof fn lemma_bounds(&self)
        requires
            self.wf(),
        ensures
            self.depth() + self.room() <= MAX_STACK,
            1 <= self.tables().len() <= usize::MAX,
            self.functions().len() <= usize::MAX,
    {
        assert(self.0.functions.len() == self.0.functions@.len());
    }

    pub fn new() -> (r: Self)
        ensures
            r.wf(),
            r.stack() == Seq::<ValueView>::empty(),
            r.room() == MIN_STACK,
            r.tables() == seq![Map::<KeyView, ValueView>::empty()],
            r.functions() == Seq::<Function>::empty(),
    {
        let mut tables: Vec<Table> = Vec::new();
        tables.push(Table::new());
        let r = Engine(
            lua_State { stack: Vec::new(), room: MIN_STACK, tables, functions: Vec::new() },
        );
        r
    }

    /// Makes sure `n` more values can be pushed. Returns whether the stack could grow that
    /// far; nothing changes when it could not.
    pub fn check_stack(&mut self, n: usize) -> (r: bool)
        requires
            old(self).wf(),
        ensures
            final(self).wf(),
            r == (old(self).depth() + n <= MAX_STACK),
            final(self).stack() == old(self).stack(),
            final(self).tables() == old(self).tables(),
            final(self).functions() == old(self).functions(),
            final(self).room() == if r {
                reserved(old(self).room(), n as nat)
            } else {
                old(self).room()
            },
    {
        if n > MAX_STACK || self.0.stack.len() > MAX_STACK - n {
            return false;
        }
        if self.0.room < n {
            self.0.room = n;
        }
        true
    }

    /// Pushes `value` into reserved room.
    pub fn push(&mut self, value: Value)
        requires
            old(self).wf(),
            old(self).room() >= 1,
        ensures
            final(self).wf(),
            final(self).stack() == old(self).stack().push(value@),
            final(self).room() == old(self).room() - 1,
            final(self).tables() == old(self).tables(),
            final(self).functions() == old(self).functions(),
    {
        self.0.stack.push(value);
        self.0.room = self.0.room - 1;
    }

    /// Reserves one slot and pushes `value`. Returns whether the stack could grow; nothing
    /// changes where it is full.
    pub fn push_value(&mut self, value: Value) -> (r: bool)
        requires
            old(self).wf(),
        ensures
            final(self).wf(),
            r == (old(self).depth() < MAX_STACK),
            final(self).stack() == pushed(old(self).stack(), value@),
            final(self).room() == room_after_push(old(self).depth(), old(self).room()),
            final(self).tables() == old(self).tables(),
            final(self).functions() == old(self).functions(),
    {
        if !self.check_stack(1) {
            return false;
        }
        self.push(value);
        true
    }

    /// Pushes every value of `values`, first one first. The sequence may be of any length,
    /// so room for all of it is reserved before the first push. Returns whether the stack
    /// could grow that far; nothing changes when it could not.
    pub fn push_all(&mut self, values: Vec<Value>) -> (r: bool)
        requires
            old(self).wf(),
        ensures
            final(self).wf(),
            r == (old(self).depth() + values.len() <= MAX_STACK),
            final(self).stack() == if r {
                old(self).stack() + views(values@)
            } else {
                old(self).stack()
            },
            final(self).room() == if r {
                reserved(old(self).room(), values.len() as nat) - values.len()
            } else {
                old(self).room() as int
            },
            final(self).tables() == old(self).tables(),
            final(self).functions() == old(self).functions(),
    {
        let n = values.len();
        if !self.check_stack(n) {
            return false;
        }
        let mut i: usize = 0;
        assert(self.stack() =~= old(self).stack() + views(values@).take(0));
        while i < n
            invariant
                i <= n,
                n == values.len(),
                self.wf(),
                self.room() == reserved(old(self).room(), n as nat) - i,
                self.room() >= n - i,
                self.stack() == old(self).stack() + views(values@).take(i as int),
                self.tables() == old(self).tables(),
                self.functions() == old(self).functions(),
            decreases n - i,
        {
            let v = values[i].dup();
            assert((old(self).stack() + views(values@).take(i as int)).push(v@) =~= old(
                self,
            ).stack() + views(values@).take(i + 1));
            self.push(v);
            i += 1;
        }
        assert(views(values@).take(n as int) =~= views(values@));
        true
    }

    /// Pushes `nil`. Returns whether the stack could grow; nothing changes where it is full.
    pub fn push_nil(&mut self) -> (r: bool)
        requires
            old(self).wf(),
        ensures
            final(self).wf(),
            r == (old(self).depth() < MAX_STACK),
            final(self).stack() == pushed(old(self).stack(), ValueView::Nil),
            final(self).room() == room_after_push(old(self).depth(), old(self).room()),
            final(self).tables() == old(self).tables(),
            final(self).functions() == old(self).functions(),
    {
        self.push_value(Value::Nil)
    }

    /// Pushes a string holding the bytes of `s`, of which the runtime keeps its own copy.
    /// Returns whether the stack could grow; nothing changes where it is full.
    pub fn push_string(&mut self, s: &str) -> (r: bool)
        requires
            old(self).wf(),
        ensures
            final(self).wf(),
            r == (old(self).depth() < MAX_STACK),
            final(self).stack() == pushed(old(self).stack(), ValueView::Str(s.spec_bytes())),
            final(self).room() == room_after_push(old(self).depth(), old(self).room()),
            final(self).tables() == old(self).tables(),
            final(self).functions() == old(self).functions(),
    {
        self.push_value(Value::Str(copy_bytes(s.as_bytes())))
    }

    /// Pushes a string holding `bytes`, which need not be text. Returns whether the stack
    /// could grow; nothing changes where it is full.
    pub fn push_bytes(&mut self, bytes: &[u8]) -> (r: bool)
        requires
            old(self).wf(),
        ensures
            final(self).wf(),
            r == (old(self).depth() < MAX_STACK),
            final(self).stack() == pushed(old(self).stack(), ValueView::Str(bytes@)),
            final(self).room() == room_after_push(old(self).depth(), old(self).room()),
            final(self).tables() == old(self).tables(),
            final(self).functions() == old(self).functions(),
    {
        self.push_value(Value::Str(copy_bytes(bytes)))
    }

    /// Pushes an integer. Returns whether the stack could grow; nothing changes where it
    /// is full.
    pub fn push_int(&mut self, v: i64) -> (r: bool)
        requires
            old(self).wf(),
        ensures
            final(self).wf(),
            r == (old(self).depth() < MAX_STACK),
            final(self).stack() == pushed(old(self).stack(), ValueView::Integer(v)),
            final(self).room() == room_after_push(old(self).depth(), old(self).room()),
            final(self).tables() == old(self).tables(),
            final(self).functions() == old(self).functions(),
    {
        self.push_value(Value::Integer(v))
    }

    pub fn top(&self) -> (r: i32)
        requires
            self.wf(),
        ensures
            r == self.depth(),
    {
        self.0.stack.len() as i32
    }

    fn resolve(&self, index: i32) -> (r: usize)
        requires
            valid_index(self.depth(), index as int),
        ensures
            r == slot_of(self.depth(), index as int),
            r < self.0.stack.len(),
    {
        if index > 0 {
            (index - 1) as usize
        } else {
            let back: usize = (-(index as i64)) as usize;
            self.0.stack.len() - back
        }
    }

    /// A copy of the value that `index` names.
    pub fn value(&self, index: i32) -> (r: Value)
        requires
            valid_index(self.depth(), index as int),
        ensures
            r@ == self.at(index as int),
    {
        let i = self.resolve(index);
        self.0.stack[i].dup()
    }

    /// Whether the value that `index` names is `nil`.
    pub fn is_nil(&self, index: i32) -> (r: bool)
        requires
            valid_index(self.depth(), index as int),
        ensures
            r == (self.at(index as int) is Nil),
    {
        let i = self.resolve(index);
        self.0.stack[i].is_nil()
    }

    /// Reads an integer. A float or a string is not coerced.
    pub fn to_int(&self, index: i32) -> (r: Option<i64>)
        requires
            valid_index(self.depth(), index as int),
        ensures
            r == (match self.at(index as int) {
                ValueView::Integer(v) => Some(v),
                _ => None,
            }),
    {
        let i = self.resolve(index);
        self.0.stack[i].as_int()
    }

    /// Reads the bytes of a string. A number is not converted.
    pub fn to_string(&self, index: i32) -> (r: Option<Vec<u8>>)
        requires
            valid_index(self.depth(), index as int),
        ensures
            match bytes_of(self.at(index as int)) {
                Some(s) => r matches Some(b) && b@ == s,
                None => r is None,
            },
    {
        let i = self.resolve(index);
        match self.0.stack[i].as_bytes() {
            Some(b) => Some(copy_bytes(b)),
            None => None,
        }
    }

    /// Pops the top value.
    pub fn pop(&mut self)
        requires
            old(self).wf(),
            old(self).depth() >= 1,
        ensures
            final(self).wf(),
            final(self).stack() == old(self).stack().drop_last(),
            final(self).room() == old(self).room() + 1,
            final(self).tables() == old(self).tables(),
            final(self).functions() == old(self).functions(),
    {
        self.0.stack.pop();
        self.0.room = self.0.room + 1;
    }

    /// Pops the top value if it is `nil`.
    pub fn pop_nil(&mut self) -> (r: Option<()>)
        requires
            old(self).wf(),
            old(self).depth() >= 1,
        ensures
            final(self).wf(),
            r is Some <==> old(self).at(-1) is Nil,
            final(self).stack() == if r is Some {
                old(self).stack().drop_last()
            } else {
                old(self).stack()
            },
            final(self).room() == if r is Some {
                old(self).room() + 1
            } else {
                old(self).room()
            },
            final(self).tables() == old(self).tables(),
            final(self).functions() == old(self).functions(),
    {
        if !self.is_nil(-1) {
            return None;
        }
        self.pop();
        Some(())
    }

    /// Pops the top value if it is an integer.
    pub fn pop_int(&mut self) -> (r: Option<i64>)
        requires
            old(self).wf(),
            old(self).depth() >= 1,
        ensures
            final(self).wf(),
            r == (match old(self).at(-1) {
                ValueView::Integer(v) => Some(v),
                _ => None,
            }),
            final(self).stack() == if r is Some {
                old(self).stack().drop_last()
            } else {
                old(self).stack()
            },
            final(self).room() == if r is Some {
                old(self).room() + 1
            } else {
                old(self).room()
            },
            final(self).tables() == old(self).tables(),
            final(self).functions() == old(self).functions(),
    {
        match self.to_int(-1) {
            Some(v) => {
                self.pop();
                Some(v)
            },
            None => None,
        }
    }

    /// Pops the top value if it is a string of well-formed UTF-8 and returns it as text.
    /// Nothing is substituted: any other value stays where it is, and the read fails with
    /// the name of that value's type.
    pub fn pop_string_lossy(&mut self) -> (r: Result<String, ConversionError>)
        requires
            old(self).wf(),
            old(self).depth() >= 1,
        ensures
            final(self).wf(),
            match text_of(old(self).at(-1)) {
                Some(t) => r matches Ok(got) && got@ == t,
                None => r matches Err(e) && e.ty_name@ == old(self).at(-1).ty().spec_name(),
            },
            final(self).stack() == if r is Ok {
                old(self).stack().drop_last()
            } else {
                old(self).stack()
            },
            final(self).room() == if r is Ok {
                old(self).room() + 1
            } else {
                old(self).room()
            },
            final(self).tables() == old(self).tables(),
            final(self).functions() == old(self).functions(),
    {
        let i = self.resolve(-1);
        match self.0.stack[i].to_text() {
            Ok(t) => {
                self.pop();
                Ok(t)
            },
            Err(e) => Err(e),
        }
    }

    /// Pops the top value and returns the name of its type.
    pub fn pop_type(&mut self) -> (r: &'static str)
        requires
            old(self).wf(),
            old(self).depth() >= 1,
        ensures
            final(self).wf(),
            r@ == old(self).at(-1).ty().spec_name(),
            final(self).stack() == old(self).stack().drop_last(),
            final(self).room() == old(self).room() + 1,
            final(self).tables() == old(self).tables(),
            final(self).functions() == old(self).functions(),
    {
        let i = self.resolve(-1);
        let name = self.0.stack[i].ty_name();
        self.pop();
        name
    }

    /// Creates an empty table and pushes a reference to it.
    pub fn new_table(&mut self)
        requires
            old(self).wf(),
            old(self).depth() < MAX_STACK,
        ensures
            final(self).wf(),
            final(self).stack() == old(self).stack().push(
                ValueView::Table(old(self).tables().len() as usize),
            ),
            final(self).room() == reserved(old(self).room(), 1) - 1,
            final(self).tables() == old(self).tables().push(Map::<KeyView, ValueView>::empty()),
            final(self).functions() == old(self).functions(),
    {
        let h = self.0.tables.len();
        self.0.tables.push(Table::new());
        self.push_value(Value::Table(h));
    }

    /// Stores `value` under `key` in table `h`.
    fn store(&mut self, h: usize, key: Key, value: Value)
        requires
            old(self).wf(),
            h < old(self).tables().len(),
        ensures
            final(self).wf(),
            final(self).stack() == old(self).stack(),
            final(self).room() == old(self).room(),
            final(self).tables() == old(self).tables().update(
                h as int,
                stored(old(self).tables()[h as int], key@, value@),
            ),
            final(self).functions() == old(self).functions(),
    {
        let mut t = self.0.tables.remove(h);
        t.set(key, value);
        self.0.tables.insert(h, t);
        assert(self.tables() =~= old(self).tables().update(
            h as int,
            stored(old(self).tables()[h as int], key@, value@),
        ));
        assert forall|i: int| 0 <= i < self.0.tables.len() implies (
        #[trigger] self.0.tables[i]).wf() by {
            if i != h {
                assert(self.0.tables[i] == old(self).0.tables[i]);
            }
        }
    }

    /// Does the equivalent of `t[key] = v`, where `t` is the table that `table` names and `v`
    /// the value on top of the stack, and pops that value. Storing `nil` removes the key.
    /// The access is raw: no metamethod runs, so the call never unwinds.
    pub fn set_field(&mut self, table: i32, key: &str)
        requires
            old(self).wf(),
            old(self).depth() >= 1,
            old(self).table_at(table as int),
        ensures
            final(self).wf(),
            final(self).stack() == old(self).stack().drop_last(),
            final(self).room() == old(self).room() + 1,
            final(self).tables() == old(self).tables().update(
                old(self).handle_at(table as int),
                stored(
                    old(self).tables()[old(self).handle_at(table as int)],
                    KeyView::Str(key.spec_bytes()),
                    old(self).at(-1),
                ),
            ),
            final(self).functions() == old(self).functions(),
    {
        let i = self.resolve(table);
        let h = match self.0.stack[i].as_table() {
            Some(h) => h,
            None => 0,
        };
        let v = self.value(-1);
        self.pop();
        self.store(h, Key::named(key), v);
    }

    /// Pushes `t[key]`, where `t` is the table that `table` names: the stored value, or `nil`
    /// where the key is absent. The access is raw: no metamethod runs, so the call never
    /// unwinds.
    pub fn get_field(&mut self, table: i32, key: &str)
        requires
            old(self).wf(),
            old(self).depth() < MAX_STACK,
            old(self).table_at(table as int),
        ensures
            final(self).wf(),
            final(self).stack() == old(self).stack().push(
                lookup(
                    old(self).tables()[old(self).handle_at(table as int)],
                    KeyView::Str(key.spec_bytes()),
                ),
            ),
            final(self).room() == reserved(old(self).room(), 1) - 1,
            final(self).tables() == old(self).tables(),
            final(self).functions() == old(self).functions(),
    {
        let i = self.resolve(table);
        let h = match self.0.stack[i].as_table() {
            Some(h) => h,
            None => 0,
        };
        let v = self.0.tables[h].get(&Key::named(key));
        self.push_value(v);
    }

    /// Does the equivalent of `t[n] = v`, where `t` is the table that `table` names and `v`
    /// the value on top of the stack, and pops that value. Storing `nil` removes the key.
    pub fn set_index(&mut self, table: i32, n: i64)
        requires
            old(self).wf(),
            old(self).depth() >= 1,
            old(self).table_at(table as int),
        ensures
            final(self).wf(),
            final(self).stack() == old(self).stack().drop_last(),
            final(self).room() == old(self).room() + 1,
            final(self).tables() == old(self).tables().update(
                old(self).handle_at(table as int),
                stored(
                    old(self).tables()[old(self).handle_at(table as int)],
                    KeyView::Int(n),
                    old(self).at(-1),
                ),
            ),
            final(self).functions() == old(self).functions(),
    {
        let i = self.resolve(table);
        let h = match self.0.stack[i].as_table() {
            Some(h) => h,
            None => 0,
        };
        let v = self.value(-1);
        self.pop();
        self.store(h, Key::Int(n), v);
    }

    /// Pushes `t[n]`, where `t` is the table that `table` names: the stored value, or `nil`
    /// where the index is absent.
    pub fn get_index(&mut self, table: i32, n: i64)
        requires
            old(self).wf(),
            old(self).depth() < MAX_STACK,
            old(self).table_at(table as int),
        ensures
            final(self).wf(),
            final(self).stack() == old(self).stack().push(
                lookup(old(self).tables()[old(self).handle_at(table as int)], KeyView::Int(n)),
            ),
            final(self).room() == reserved(old(self).room(), 1) - 1,
            final(self).tables() == old(self).tables(),
            final(self).functions() == old(self).functions(),
    {
        let i = self.resolve(table);
        let h = match self.0.stack[i].as_table() {
            Some(h) => h,
            None => 0,
        };
        let v = self.0.tables[h].get(&Key::Int(n));
        self.push_value(v);
    }

    /// Pops the top value and binds the global variable `name` to it. A later binding of
    /// the same name replaces an earlier one.
    pub fn set_global(&mut self, name: &str)
        requires
            old(self).wf(),
            old(self).depth() >= 1,
        ensures
            final(self).wf(),
            final(self).stack() == old(self).stack().drop_last(),
            final(self).room() == old(self).room() + 1,
            final(self).tables() == old(self).tables().update(
                GLOBALS as int,
                stored(
                    old(self).tables()[GLOBALS as int],
                    KeyView::Str(name.spec_bytes()),
                    old(self).at(-1),
                ),
            ),
            final(self).functions() == old(self).functions(),
    {
        let v = self.value(-1);
        self.pop();
        self.store(GLOBALS, Key::named(name), v);
    }

    /// Pushes the value of the global variable `name`, `nil` where it is unbound.
    pub fn get_global(&mut self, name: &str)
        requires
            old(self).wf(),
            old(self).depth() < MAX_STACK,
        ensures
            final(self).wf(),
            final(self).stack() == old(self).stack().push(
                lookup(old(self).tables()[GLOBALS as int], KeyView::Str(name.spec_bytes())),
            ),
            final(self).room() == reserved(old(self).room(), 1) - 1,
            final(self).tables() == old(self).tables(),
            final(self).functions() == old(self).functions(),
    {
        let v = self.0.tables[GLOBALS].get(&Key::named(name));
        self.push_value(v);
    }

    /// Wraps a host closure as a function of the runtime and pushes it. `state` names the
    /// closure's captured state, which moves into an allocation of the runtime; that
    /// allocation gets a finalizer exactly when `needs_drop` says the state has teardown to
    /// run. Up to [`PUSH_FN_SLOTS`] slots are reserved; one value stays, with or without a
    /// finalizer. Returns whether the stack could grow that far; nothing changes, and the
    /// closure is not taken, where it could not.
    pub fn push_fn(&mut self, state: usize, needs_drop: bool) -> (r: bool)
        requires
            old(self).wf(),
        ensures
            final(self).wf(),
            r == (old(self).depth() + PUSH_FN_SLOTS <= MAX_STACK),
            final(self).tables() == old(self).tables(),
            if r {
                &&& final(self).stack() == old(self).stack().push(
                    ValueView::Function(old(self).functions().len() as usize),
                )
                &&& final(self).room() == reserved(old(self).room(), PUSH_FN_SLOTS as nat) - 1
                &&& final(self).functions() == old(self).functions().push(
                    Function::Host { state, finalizer: needs_drop },
                )
            } else {
                &&& final(self).stack() == old(self).stack()
                &&& final(self).room() == old(self).room()
                &&& final(self).functions() == old(self).functions()
            },
    {
        if !self.check_stack(PUSH_FN_SLOTS) {
            return false;
        }
        let h = self.0.functions.len();
        self.0.functions.push(Function::Host { state, finalizer: needs_drop });
        self.push(Value::Function(h));
        true
    }

    /// The function object behind handle `h`.
    pub fn function(&self, h: usize) -> (r: Option<Function>)
        ensures
            r == if h < self.functions().len() {
                Some(self.functions()[h as int])
            } else {
                None
            },
    {
        if h < self.0.functions.len() {
            Some(self.0.functions[h])
        } else {
            None
        }
    }

    /// Tears the runtime down. Returns the state of each host closure whose allocation has
    /// a finalizer, once each, latest created first: the teardown the host has to run.
    pub fn close(self) -> (r: Vec<usize>)
        ensures
            r@ == finalizers(self.functions()),
    {
        let mut out: Vec<usize> = Vec::new();
        let mut i: usize = self.0.functions.len();
        let ghost fs = self.0.functions@;
        assert(fs.take(i as int) == fs);
        while i > 0
            invariant
                fs == self.0.functions@,
                i <= fs.len(),
                out@ + finalizers(fs.take(i as int)) == finalizers(fs),
            decreases i,
        {
            let ghost cur = fs.take(i as int);
            assert(cur.drop_last() == fs.take(i - 1));
            i -= 1;
            match self.0.functions[i] {
                Function::Host { state, finalizer: true } => {
                    assert(out@.push(state) + finalizers(fs.take(i as int)) == out@ + (
                    seq![state] + finalizers(fs.take(i as int))));
                    out.push(state);
                },
                _ => {},
            }
        }
        out
    }

    /// Reads argument `n` of the running native call as a string. A missing argument or
    /// one that is no string is an argument error that names the position.
    pub fn arg_string(&self, n: i32) -> (r: Result<Vec<u8>, crate::error::ArgError>)
        requires
            self.wf(),
            n >= 1,
        ensures
            match r {
                Ok(b) => n <= self.depth() && self.at(n as int) == ValueView::Str(b@),
                Err(e) => {
                    &&& e.position == n
                    &&& !(n <= self.depth() && self.at(n as int) is Str)
                    &&& e.reason@ == mismatch_text(
                        Type::String.spec_name(),
                        if n <= self.depth() {
                            self.at(n as int).ty().spec_name()
                        } else {
                            Type::NoValue.spec_name()
                        },
                    )
                },
            },
    {
        if n > self.top() {
            return Err(self.arg_error(n, mismatch(Type::String.name(), Type::NoValue.name())));
        }
        let i = self.resolve(n);
        match self.0.stack[i].as_bytes() {
            Some(b) => Ok(copy_bytes(b)),
            None => Err(
                self.arg_error(n, mismatch(Type::String.name(), self.0.stack[i].ty_name())),
            ),
        }
    }

    /// The error to raise for argument `n` of the running native call, with reason `m`.
    pub fn arg_error(&self, n: i32, m: String) -> (r: crate::error::ArgError)
        requires
            n >= 1,
        ensures
            r.position == n,
            r.reason@ == m@,
    {
        crate::error::ArgError { position: n as usize, reason: m }
    }

    /// Raises `e`: its formatted message becomes the one error value on the stack.
    pub fn error(&mut self, e: LuaError)
        requires
            old(self).wf(),
            old(self).depth() < MAX_STACK,
        ensures
            final(self).wf(),
            final(self).stack() == old(self).stack().push(
                ValueView::Str(vstd::utf8::encode_utf8(e.formatted())),
            ),
            final(self).room() == reserved(old(self).room(), 1) - 1,
            final(self).tables() == old(self).tables(),
            final(self).functions() == old(self).functions(),
    {
        let text = e.to_lua();
        self.push_string(text.as_str());
    }

    /// Records how loading a script ended. A compiled chunk is pushed as a function. A file
    /// that could not be read or did not compile gives the error and changes nothing: no
    /// value stays on the stack and no table is touched.
    pub fn load(&mut self, loaded: Loaded) -> (r: Result<(), EngineError>)
        requires
            old(self).wf(),
            old(self).depth() < MAX_STACK,
        ensures
            final(self).wf(),
            final(self).tables() == old(self).tables(),
            match loaded {
                Loaded::Compiled => {
                    &&& r is Ok
                    &&& final(self).stack() == old(self).stack().push(
                        ValueView::Function(old(self).functions().len() as usize),
                    )
                    &&& final(self).functions() == old(self).functions().push(Function::Chunk)
                    &&& final(self).room() == reserved(old(self).room(), 1) - 1
                },
                Loaded::Rejected(m) => {
                    &&& result_view(r) == Err::<(), EngineErrorView>(EngineErrorView::LoadFile(m@))
                    &&& final(self).stack() == old(self).stack()
                    &&& final(self).functions() == old(self).functions()
                    &&& final(self).room() == old(self).room()
                },
                Loaded::Unreadable(m) => {
                    &&& result_view(r) == Err::<(), EngineErrorView>(EngineErrorView::ReadFile(m@))
                    &&& final(self).stack() == old(self).stack()
                    &&& final(self).functions() == old(self).functions()
                    &&& final(self).room() == old(self).room()
                },
            },
    {
        match loaded {
            Loaded::Compiled => {
                let h = self.0.functions.len();
                self.0.functions.push(Function::Chunk);
                self.push_value(Value::Function(h));
                Ok(())
            },
            Loaded::Rejected(m) => Err(EngineError::LoadFile(m)),
            Loaded::Unreadable(m) => Err(EngineError::ReadFile(m)),
        }
    }

    /// Whether `v` refers to the host function whose closure `state` names.
    pub open spec fn hosts(&self, v: ValueView, state: usize) -> bool {
        &&& v matches ValueView::Function(h)
        &&& h < self.functions().len()
        &&& self.functions()[h as int] matches Function::Host { state: s, .. }
        &&& s == state
    }

    /// Whether a chunk that has not run stands on top of the stack.
    pub open spec fn runnable(&self) -> bool {
        &&& self.depth() >= 1
        &&& self.at(-1) matches ValueView::Function(h)
        &&& h < self.functions().len()
        &&& self.functions()[h as int] == Function::Chunk
    }

    /// The handle of the function on top of the stack.
    pub open spec fn top_function(&self) -> int {
        match self.at(-1) {
            ValueView::Function(h) => h as int,
            _ => 0,
        }
    }

    /// Records how the protected call of the chunk on top of the stack ended and decides
    /// what the host reports. The chunk leaves the stack and is dead from then on. An
    /// error that the script raised is reported with its message; a returned value is read
    /// as [`exit_code_of`] says. Where no chunk that has not run stands on top of the
    /// stack, there is nothing to run: that is reported as an error and nothing changes.
    pub fn run(&mut self, outcome: Result<Value, String>) -> (r: Result<u8, EngineError>)
        requires
            old(self).wf(),
        ensures
            final(self).wf(),
            final(self).tables() == old(self).tables(),
            if old(self).runnable() {
                &&& final(self).stack() == old(self).stack().drop_last()
                &&& final(self).room() == old(self).room() + 1
                &&& final(self).functions() == old(self).functions().update(
                    old(self).top_function(),
                    Function::Done,
                )
                &&& result_view(r) == (match outcome {
                    Ok(v) => exit_code_of(v@),
                    Err(m) => Err(EngineErrorView::RunScript(m@)),
                })
            } else {
                &&& result_view(r) == Err::<u8, EngineErrorView>(EngineErrorView::Dead)
                &&& final(self).stack() == old(self).stack()
                &&& final(self).room() == old(self).room()
                &&& final(self).functions() == old(self).functions()
            },
    {
        let n = self.0.stack.len();
        if n == 0 {
            return Err(EngineError::Dead);
        }
        let h = match self.0.stack[n - 1].as_function() {
            Some(h) => h,
            None => {
                return Err(EngineError::Dead);
            },
        };
        match self.function(h) {
            Some(Function::Chunk) => {},
            _ => {
                return Err(EngineError::Dead);
            },
        }
        self.0.functions.set(h, Function::Done);
        assert(self.stack() == old(self).stack());
        assert(self.tables() == old(self).tables());
        self.pop();
        match outcome {
            Ok(v) => {
                self.push_value(v);
                let ghost mid = self.stack();
                let r = if let Some(i) = self.pop_int() {
                    exit_code(&Value::Integer(i))
                } else if let Some(_) = self.pop_nil() {
                    Ok(0)
                } else {
                    Err(EngineError::InvalidResult(self.pop_type()))
                };
                assert(mid.drop_last() == old(self).stack().drop_last());
                r
            },
            Err(m) => Err(EngineError::RunScript(m)),
        }
    }

    /// Calls the host function `f` as the function that stands below the top `nargs`
    /// values, with those values as its arguments. The function and the arguments leave
    /// the stack. When `f` succeeds, exactly `nresults` values take their place: the
    /// results it pushed, cut or filled up with `nil`. When `f` fails, the one value that
    /// takes their place is its error message. `state` names the closure that `f` is; where
    /// the value below the arguments is not the host function of that closure, `f` is not
    /// called and the call fails with the reason as its error value. Returns whether the
    /// call succeeded.
    pub fn call<F: Fn(Frame) -> Result<Frame, LuaError>>(
        &mut self,
        nargs: usize,
        nresults: usize,
        state: usize,
        f: F,
    ) -> (r: bool)
        requires
            old(self).wf(),
            old(self).depth() >= nargs + 1,
            old(self).depth() - nargs - 1 + nresults <= MAX_STACK,
            forall|fr: Frame|
                fr.arguments() == old(self).stack().skip(old(self).depth() - nargs)
                    && fr.results() == Seq::<ValueView>::empty() ==> call_requires(f, (fr,)),
        ensures
            final(self).wf(),
            final(self).tables() == old(self).tables(),
            final(self).functions() == old(self).functions(),
            if old(self).hosts(old(self).at(-(nargs as int) - 1), state) {
                exists|fr: Frame, out: Result<Frame, LuaError>|
                    {
                        &&& fr.arguments() == old(self).stack().skip(old(self).depth() - nargs)
                        &&& fr.results() == Seq::<ValueView>::empty()
                        &&& call_ensures(f, (fr,), out)
                        &&& r == (out is Ok)
                        &&& final(self).stack() == after_call(
                            old(self).stack(),
                            nargs as nat,
                            nresults as nat,
                            outcome_of(out),
                        )
                    }
            } else {
                &&& !r
                &&& final(self).stack() == after_call(
                    old(self).stack(),
                    nargs as nat,
                    nresults as nat,
                    Err(callee_refusal(old(self).at(-(nargs as int) - 1))),
                )
            },
            final(self).depth() == old(self).depth() - nargs - 1 + if r {
                nresults as int
            } else {
                1
            },
            final(self).room() == if r {
                reserved((old(self).room() + nargs + 1) as nat, nresults as nat) - nresults
            } else {
                old(self).room() + nargs
            },
    {
        let len = self.0.stack.len();
        let callee = self.value(-(nargs as i32) - 1);
        let args = self.0.stack.split_off(len - nargs);
        self.0.stack.pop();
        self.0.room = self.0.room + nargs + 1;
        let ghost base = old(self).stack().take(len - nargs - 1);
        assert(views(args@) =~= old(self).stack().skip(len - nargs));
        let hosted = match callee.as_function() {
            Some(h) => match self.function(h) {
                Some(Function::Host { state: s, finalizer: _ }) => s == state,
                _ => false,
            },
            None => false,
        };
        if !hosted {
            let m = match callee {
                Value::Function(_) => String::from_str(
                    "attempt to call a function that is not the host function given",
                ),
                _ => {
                    let mut m = String::from_str("attempt to call a ");
                    m.append(callee.ty_name());
                    m.append(" value");
                    m
                },
            };
            self.error(LuaError::new(m.as_str()));
            return false;
        }
        let frame = Frame::new(args);
        let ghost fr = frame;
        let out = f(frame);
        let ghost res = out;
        match out {
            Ok(done) => {
                let results = done.into_results();
                let ghost rs = views(results@);
                self.check_stack(nresults);
                let mut i: usize = 0;
                while i < nresults
                    invariant
                        i <= nresults,
                        self.wf(),
                        self.room() == reserved((old(self).room() + nargs + 1) as nat, nresults as nat)
                            - i,
                        self.room() >= nresults - i,
                        rs == views(results@),
                        self.stack() == base + adjusted(rs, nresults as nat).take(i as int),
                        self.tables() == old(self).tables(),
                        self.functions() == old(self).functions(),
                    decreases nresults - i,
                {
                    let v = if i < results.len() {
                        results[i].dup()
                    } else {
                        Value::Nil
                    };
                    assert((base + adjusted(rs, nresults as nat).take(i as int)).push(v@) =~= base
                        + adjusted(rs, nresults as nat).take(i + 1));
                    self.push(v);
                    i += 1;
                }
                assert(adjusted(rs, nresults as nat).take(nresults as int) =~= adjusted(
                    rs,
                    nresults as nat,
                ));
                assert(call_ensures(f, (fr,), res));
                assert(self.stack() == after_call(
                    old(self).stack(),
                    nargs as nat,
                    nresults as nat,
                    outcome_of(res),
                ));
                true
            },
            Err(e) => {
                self.error(e);
                assert(self.stack() == after_call(
                    old(self).stack(),
                    nargs as nat,
                    nresults as nat,
                    outcome_of(res),
                ));
                false
            },
        }
    }

    /// Publishes the functions of `exports` in table `h`: each becomes a function object
    /// of its own, stored under its name.
    pub fn publish(&mut self, h: usize, exports: &Vec<Export>)
        requires
            old(self).wf(),
            h < old(self).tables().len(),
        ensures
            final(self).wf(),
            final(self).stack() == old(self).stack(),
            final(self).room() == old(self).room(),
            final(self).tables() == old(self).tables().update(
                h as int,
                published(
                    old(self).tables()[h as int],
                    old(self).functions().len() as int,
                    exports@,
                ),
            ),
            final(self).functions() == old(self).functions() + kinds(exports@),
    {
        let ghost first = old(self).functions().len() as int;
        let ghost m0 = old(self).tables()[h as int];
        let mut i: usize = 0;
        while i < exports.len()
            invariant
                i <= exports.len(),
                self.wf(),
                h < old(self).tables().len(),
                first == old(self).functions().len(),
                m0 == old(self).tables()[h as int],
                self.stack() == old(self).stack(),
                self.room() == old(self).room(),
                self.tables() == old(self).tables().update(
                    h as int,
                    published(m0, first, exports@.take(i as int)),
                ),
                self.functions() == old(self).functions() + kinds(exports@.take(i as int)),
            decreases exports.len() - i,
        {
            let e = exports[i];
            let ghost next = exports@.take(i + 1);
            assert(next.drop_last() == exports@.take(i as int));
            let fh = self.0.functions.len();
            self.0.functions.push(e.function);
            assert(self.tables() == old(self).tables().update(
                h as int,
                published(m0, first, exports@.take(i as int)),
            ));
            self.store(h, Key::named(e.name), Value::Function(fh));
            assert(self.tables() =~= old(self).tables().update(
                h as int,
                published(m0, first, next),
            ));
            i += 1;
        }
        assert(exports@.take(exports.len() as int) == exports@);
    }

    /// Loads the default `os` library: a new table with the functions of
    /// [`os_library`] is bound to the global variable `os`, and a reference to it is
    /// pushed. Up to [`REQUIRE_OS_SLOTS`] slots are reserved; one value stays.
    pub fn require_os(&mut self)
        requires
            old(self).wf(),
            old(self).depth() + REQUIRE_OS_SLOTS <= MAX_STACK,
        ensures
            final(self).wf(),
            final(self).stack() == old(self).stack().push(
                ValueView::Table(old(self).tables().len() as usize),
            ),
            final(self).room() == reserved(old(self).room(), REQUIRE_OS_SLOTS as nat) - 1,
            final(self).functions() == old(self).functions() + kinds(os_library()),
            final(self).tables() == old(self).tables().push(
                published(Map::empty(), old(self).functions().len() as int, os_library()),
            ).update(
                GLOBALS as int,
                old(self).tables()[GLOBALS as int].insert(
                    field("os"),
                    ValueView::Table(old(self).tables().len() as usize),
                ),
            ),
    {
        self.check_stack(REQUIRE_OS_SLOTS);
        let h = self.0.tables.len();
        self.new_table();
        self.publish(h, &os_exports());
        self.push_value(Value::Table(h));
        self.set_global("os");
        assert(self.tables() =~= old(self).tables().push(
            published(Map::empty(), old(self).functions().len() as int, os_library()),
        ).update(
            GLOBALS as int,
            old(self).tables()[GLOBALS as int].insert(field("os"), ValueView::Table(h)),
        ));
    }

    /// What a read of `key` in the table behind handle `h` yields; `nil` where there is no
    /// such table.
    pub open spec fn read(&self, h: usize, key: KeyView) -> ValueView {
        if h < self.tables().len() {
            lookup(self.tables()[h as int], key)
        } else {
            ValueView::Nil
        }
    }

    /// Reads `key` in the table behind handle `h`.
    pub fn field_of(&self, h: usize, key: &Key) -> (r: Value)
        requires
            self.wf(),
        ensures
            r@ == self.read(h, key@),
    {
        if h < self.0.tables.len() {
            self.0.tables[h].get(key)
        } else {
            Value::Nil
        }
    }
}

/// Stack balance of a call: whatever the function did, the depth afterwards is the depth
/// before, less the function and its arguments, plus exactly the number of results asked
/// for on success, or plus the one error value on failure.
pub proof fn law_call_balance(
    stack: Seq<ValueView>,
    nargs: nat,
    nresults: nat,
    out: Result<Seq<ValueView>, Seq<char>>,
)
    requires
        stack.len() >= nargs + 1,
    ensures
        after_call(stack, nargs, nresults, out).len() == stack.len() - nargs - 1 + (if out is Ok {
            nresults
        } else {
            1
        }),
        after_call(stack, nargs, nresults, out).take(stack.len() - nargs - 1) == stack.take(
            stack.len() - nargs - 1,
        ),
{
    let base = stack.take(stack.len() - nargs - 1);
    let after = after_call(stack, nargs, nresults, out);
    assert(after.take(base.len() as int) =~= base);
}

/// The results a caller receives are the ones the function pushed, in order, as far as it
/// asked for them, and `nil` beyond.
pub proof fn law_results_adjusted(rs: Seq<ValueView>, n: nat, i: int)
    requires
        0 <= i < n,
    ensures
        adjusted(rs, n).len() == n,
        adjusted(rs, n)[i] == if i < rs.len() {
            rs[i]
        } else {
            ValueView::Nil
        },
{
}

/// What is pushed is what is read back: after a push, the value stands on top, whether
/// the top is named from above or from below, and everything under it is as before.
pub proof fn law_pushed_is_on_top(stack: Seq<ValueView>, v: ValueView, index: int)
    ensures
        ({
            let top = stack.len() as int;
            &&& stack.push(v)[slot_of(top + 1, -1)] == v
            &&& stack.push(v)[slot_of(top + 1, top + 1)] == v
            &&& valid_index(top, index) ==> stack.push(v)[slot_of(
                top + 1,
                if index > 0 {
                    index
                } else {
                    index - 1
                },
            )] == stack[slot_of(top, index)]
        }),
{
}

/// A push and a pop cancel: the stack is as it was.
pub proof fn law_push_pop(stack: Seq<ValueView>, v: ValueView)
    ensures
        stack.push(v).drop_last() == stack,
        stack.push(v).len() == stack.len() + 1,
{
    assert(stack.push(v).drop_last() =~= stack);
}

} // verus!
