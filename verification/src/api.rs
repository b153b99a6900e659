//! The modules the host offers to scripts, each a table of functions under a name.

use vstd::prelude::*;
use rustc_hash::FxHashMap;
use vstd::string::StringSliceAdditionalSpecFns;
use vstd::string::StringExecFns;
use vstd::string::StrSliceExecFns;
use crate::engine::{
    field, kinds, mismatch_text, published, reserved, Engine, EngineView, Export, Function,
    GLOBALS, MAX_EXIT_CODE,
};
use crate::error::{ArgError, LuaError};
use crate::frame::{
    actual_name, is_arg_error, string_arg_of, text_arg_of, text_of_string, text_value, Frame,
};
use crate::manifest::ArgType;
use crate::os::{text_result, Refusal};
use crate::text::{same_text, texts, uppercase, uppercase_of};
use crate::ty::Type;
use crate::module::{Module, World, OPEN_SLOTS};
use crate::registry::{has_class, ClassBuilder, ClassView, Instance, Registry};
use crate::table::KeyView;
use crate::value::{Value, ValueView};

verus! {

/// Names the host function behind the global `exit`.
pub const EXIT: usize = 1;

/// Names the host function behind `json.parse`.
pub const JSON_PARSE: usize = 2;

/// Names the host function behind `os.capture`.
pub const OS_CAPTURE: usize = 3;

/// Names the host function behind `os.createdir`.
pub const OS_CREATEDIR: usize = 4;

/// Names the host function behind `os.removedir`.
pub const OS_REMOVEDIR: usize = 5;

/// Names the host function behind `os.run`.
pub const OS_RUN: usize = 6;

/// Names the host function behind `os.spawn`.
pub const OS_SPAWN: usize = 7;

/// Names the host function behind `path.join`.
pub const PATH_JOIN: usize = 8;

/// Names the host function behind `string.capitalize`.
pub const STRING_CAPITALIZE: usize = 9;

/// Names the host function behind `Url.new`.
pub const URL_NEW: usize = 10;

/// Names the host function that reads a command-line argument from `args`.
pub const ARGS_GET: usize = 11;

/// Names the host function that ends a spawned process.
pub const PROCESS_KILL: usize = 12;

/// Names the host function that reads a line of a spawned process's output.
pub const STREAM_READ: usize = 13;

/// A function of the runtime's own libraries, published as `name`.
pub open spec fn builtin_of(name: &'static str) -> Export {
    Export { name, function: Function::Builtin }
}

/// The host function that `id` names, published as `name`.
pub open spec fn host_of(name: &'static str, id: usize) -> Export {
    Export { name, function: Function::Host { state: id, finalizer: false } }
}

fn builtin(name: &'static str) -> (r: Export)
    ensures
        r == builtin_of(name),
{
    Export { name, function: Function::Builtin }
}

fn host(name: &'static str, id: usize) -> (r: Export)
    ensures
        r == host_of(name, id),
{
    Export { name, function: Function::Host { state: id, finalizer: false } }
}

/// Opening a module that publishes `exports` in a table of its own: the table is the
/// newest one and is the module's instance; nothing else changes.
pub open spec fn opens_table(
    before: World,
    after: World,
    r: Result<ValueView, Seq<char>>,
    exports: Seq<Export>,
) -> bool {
    &&& r == Ok::<ValueView, Seq<char>>(ValueView::Table(before.engine.tables.len() as usize))
    &&& after.engine.stack == before.engine.stack
    &&& after.engine.room == reserved(before.engine.room, 1)
    &&& after.engine.tables == before.engine.tables.push(
        published(Map::empty(), before.engine.functions.len() as int, exports),
    )
    &&& after.engine.functions == before.engine.functions + kinds(exports)
    &&& after.classes == before.classes
    &&& after.members == before.members
    &&& after.instances == before.instances
}

fn open_table(engine: &mut Engine, exports: &Vec<Export>) -> (r: Value)
    requires
        old(engine).wf(),
        old(engine).depth() < crate::engine::MAX_STACK,
    ensures
        final(engine).wf(),
        r@ == ValueView::Table(old(engine).tables().len() as usize),
        final(engine).stack() == old(engine).stack(),
        final(engine).room() == reserved(old(engine).room(), 1),
        final(engine).tables() == old(engine).tables().push(
            published(Map::empty(), old(engine).functions().len() as int, exports@),
        ),
        final(engine).functions() == old(engine).functions() + kinds(exports@),
{
    proof {
        engine.lemma_bounds();
    }
    engine.new_table();
    let t = engine.value(-1);
    let handle = match t.as_table() {
        Some(handle) => handle,
        None => 0,
    };
    engine.publish(handle, exports);
    engine.pop();
    assert(engine.tables() =~= old(engine).tables().push(
        published(Map::empty(), old(engine).functions().len() as int, exports@),
    ));
    t
}

/// What the global module publishes: the base library with the host's own `exit`.
pub open spec fn global_library() -> Seq<Export> {
    seq![
        builtin_of("assert"),
        builtin_of("error"),
        host_of("exit", EXIT),
        builtin_of("getmetatable"),
        builtin_of("load"),
        builtin_of("next"),
        builtin_of("pairs"),
        builtin_of("print"),
        builtin_of("rawequal"),
        builtin_of("rawget"),
        builtin_of("rawlen"),
        builtin_of("rawset"),
        builtin_of("select"),
        builtin_of("setmetatable"),
        builtin_of("tonumber"),
        builtin_of("tostring"),
        builtin_of("type"),
    ]
}

/// Implementation of [Module] for global APIs.
pub struct GlobalModule;

impl GlobalModule {
    fn exports() -> (r: Vec<Export>)
        ensures
            r@ == global_library(),
    {
        let mut r: Vec<Export> = Vec::new();
        r.push(builtin("assert"));
        r.push(builtin("error"));
        r.push(host("exit", EXIT));
        r.push(builtin("getmetatable"));
        r.push(builtin("load"));
        r.push(builtin("next"));
        r.push(builtin("pairs"));
        r.push(builtin("print"));
        r.push(builtin("rawequal"));
        r.push(builtin("rawget"));
        r.push(builtin("rawlen"));
        r.push(builtin("rawset"));
        r.push(builtin("select"));
        r.push(builtin("setmetatable"));
        r.push(builtin("tonumber"));
        r.push(builtin("tostring"));
        r.push(builtin("type"));
        r
    }
}

impl Module for GlobalModule {
    open spec fn spec_name(&self) -> Seq<u8> {
        "_G".spec_bytes()
    }

    /// The functions are published in the table of globals itself, which is the instance.
    open spec fn opened(&self, before: World, after: World, r: Result<ValueView, Seq<char>>) -> bool {
        &&& r == Ok::<ValueView, Seq<char>>(ValueView::Table(GLOBALS))
        &&& after.engine.stack == before.engine.stack
        &&& after.engine.room == before.engine.room
        &&& after.engine.tables == before.engine.tables.update(
            GLOBALS as int,
            published(
                before.engine.tables[GLOBALS as int],
                before.engine.functions.len() as int,
                global_library(),
            ),
        )
        &&& after.engine.functions == before.engine.functions + kinds(global_library())
        &&& after.classes == before.classes
        &&& after.members == before.members
        &&& after.instances == before.instances
    }

    fn name(&self) -> (r: &'static str) {
        "_G"
    }

    fn open(self, engine: &mut Engine, classes: &mut Registry) -> (r: Result<Value, LuaError>) {
        proof {
            engine.lemma_bounds();
        }
        engine.publish(GLOBALS, &Self::exports());
        Ok(Value::Table(GLOBALS))
    }
}

/// What the `json` module publishes.
pub open spec fn json_library() -> Seq<Export> {
    seq![host_of("parse", JSON_PARSE)]
}

/// Implementation of [Module] for `json` API.
pub struct JsonModule;

impl Module for JsonModule {
    open spec fn spec_name(&self) -> Seq<u8> {
        "json".spec_bytes()
    }

    open spec fn opened(&self, before: World, after: World, r: Result<ValueView, Seq<char>>) -> bool {
        opens_table(before, after, r, json_library())
    }

    fn name(&self) -> (r: &'static str) {
        "json"
    }

    fn open(self, engine: &mut Engine, classes: &mut Registry) -> (r: Result<Value, LuaError>) {
        let mut e: Vec<Export> = Vec::new();
        e.push(host("parse", JSON_PARSE));
        Ok(open_table(engine, &e))
    }
}

/// What the `path` module publishes.
pub open spec fn path_library() -> Seq<Export> {
    seq![host_of("join", PATH_JOIN)]
}

/// Implementation of [Module] for `path` API.
pub struct PathModule;

impl Module for PathModule {
    open spec fn spec_name(&self) -> Seq<u8> {
        "path".spec_bytes()
    }

    open spec fn opened(&self, before: World, after: World, r: Result<ValueView, Seq<char>>) -> bool {
        opens_table(before, after, r, path_library())
    }

    fn name(&self) -> (r: &'static str) {
        "path"
    }

    fn open(self, engine: &mut Engine, classes: &mut Registry) -> (r: Result<Value, LuaError>) {
        let mut e: Vec<Export> = Vec::new();
        e.push(host("join", PATH_JOIN));
        Ok(open_table(engine, &e))
    }
}

/// What the `Url` module publishes.
pub open spec fn url_library() -> Seq<Export> {
    seq![host_of("new", URL_NEW)]
}

/// Implementation of [Module] for `Url` class.
pub struct UrlModule;

impl Module for UrlModule {
    open spec fn spec_name(&self) -> Seq<u8> {
        "Url".spec_bytes()
    }

    open spec fn opened(&self, before: World, after: World, r: Result<ValueView, Seq<char>>) -> bool {
        opens_table(before, after, r, url_library())
    }

    fn name(&self) -> (r: &'static str) {
        "Url"
    }

    fn open(self, engine: &mut Engine, classes: &mut Registry) -> (r: Result<Value, LuaError>) {
        let mut e: Vec<Export> = Vec::new();
        e.push(host("new", URL_NEW));
        Ok(open_table(engine, &e))
    }
}

/// What the `string` module publishes: the string library with the host's `capitalize`.
pub open spec fn string_library() -> Seq<Export> {
    seq![
        builtin_of("byte"),
        builtin_of("char"),
        builtin_of("find"),
        builtin_of("format"),
        builtin_of("gsub"),
        builtin_of("len"),
        builtin_of("lower"),
        builtin_of("match"),
        builtin_of("pack"),
        builtin_of("packsize"),
        builtin_of("rep"),
        builtin_of("reverse"),
        builtin_of("sub"),
        builtin_of("unpack"),
        builtin_of("upper"),
        host_of("capitalize", STRING_CAPITALIZE),
    ]
}

/// Implementation of [Module] for `string` API.
pub struct StringModule;

impl Module for StringModule {
    open spec fn spec_name(&self) -> Seq<u8> {
        "string".spec_bytes()
    }

    open spec fn opened(&self, before: World, after: World, r: Result<ValueView, Seq<char>>) -> bool {
        opens_table(before, after, r, string_library())
    }

    fn name(&self) -> (r: &'static str) {
        "string"
    }

    fn open(self, engine: &mut Engine, classes: &mut Registry) -> (r: Result<Value, LuaError>) {
        let mut e: Vec<Export> = Vec::new();
        e.push(builtin("byte"));
        e.push(builtin("char"));
        e.push(builtin("find"));
        e.push(builtin("format"));
        e.push(builtin("gsub"));
        e.push(builtin("len"));
        e.push(builtin("lower"));
        e.push(builtin("match"));
        e.push(builtin("pack"));
        e.push(builtin("packsize"));
        e.push(builtin("rep"));
        e.push(builtin("reverse"));
        e.push(builtin("sub"));
        e.push(builtin("unpack"));
        e.push(builtin("upper"));
        e.push(host("capitalize", STRING_CAPITALIZE));
        assert(e@ =~= string_library());
        Ok(open_table(engine, &e))
    }
}

/// The functions the host adds to the `os` module.
pub open spec fn os_library() -> Seq<Export> {
    seq![
        host_of("capture", OS_CAPTURE),
        host_of("createdir", OS_CREATEDIR),
        host_of("removedir", OS_REMOVEDIR),
        host_of("run", OS_RUN),
        host_of("spawn", OS_SPAWN),
    ]
}

/// The functions the host adds to the `os` module.
pub fn os_exports() -> (r: Vec<Export>)
    ensures
        r@ == os_library(),
{
    let mut e: Vec<Export> = Vec::new();
    e.push(host("capture", OS_CAPTURE));
    e.push(host("createdir", OS_CREATEDIR));
    e.push(host("removedir", OS_REMOVEDIR));
    e.push(host("run", OS_RUN));
    e.push(host("spawn", OS_SPAWN));
    assert(e@ =~= os_library());
    e
}

/// The class of a spawned process: closing it ends the process, and it has a finalizer
/// that does the same.
pub open spec fn process_class() -> ClassView {
    ClassView {
        methods: Map::<KeyView, ValueView>::empty().insert(
            field("__close"),
            ValueView::Function(PROCESS_KILL),
        ),
        properties: Map::empty(),
        finalizer: true,
    }
}

/// The class of the output stream of a spawned process: it can be read.
pub open spec fn stream_class() -> ClassView {
    ClassView {
        methods: Map::<KeyView, ValueView>::empty().insert(
            field("read"),
            ValueView::Function(STREAM_READ),
        ),
        properties: Map::empty(),
        finalizer: false,
    }
}

/// The class of the arguments object: indexing it reads an argument.
pub open spec fn args_class() -> ClassView {
    ClassView {
        methods: Map::<KeyView, ValueView>::empty().insert(
            field("__index"),
            ValueView::Function(ARGS_GET),
        ),
        properties: Map::empty(),
        finalizer: false,
    }
}

/// The message of a module whose class cannot be registered because its name is taken.
pub open spec fn class_taken() -> Seq<char> {
    "class is already registered"@
}

/// Implementation of [Module] for `os` API.
pub struct OsModule {
    /// The name of the processor architecture the host runs on.
    pub arch: &'static str,
    /// The name of the kind of operating system the host runs on.
    pub kind: &'static str,
}

impl Module for OsModule {
    open spec fn spec_name(&self) -> Seq<u8> {
        "os".spec_bytes()
    }

    /// The classes of spawned processes and of their output streams are registered, then
    /// the table is made: the two names of the platform and the host's functions. Where
    /// one of the class names is taken, the module fails and nothing changes.
    open spec fn opened(&self, before: World, after: World, r: Result<ValueView, Seq<char>>) -> bool {
        if has_class(before.classes, "Process"@) || has_class(before.classes, "OutputStream"@) {
            r == Err::<ValueView, Seq<char>>(class_taken()) && after == before
        } else {
            &&& r == Ok::<ValueView, Seq<char>>(
                ValueView::Table(before.engine.tables.len() as usize),
            )
            &&& after.engine.stack == before.engine.stack
            &&& after.engine.room == reserved(before.engine.room, OPEN_SLOTS as nat)
            &&& after.engine.tables == before.engine.tables.push(
                published(
                    Map::<KeyView, ValueView>::empty().insert(
                        field("arch"),
                        ValueView::Str(self.arch.spec_bytes()),
                    ).insert(field("kind"), ValueView::Str(self.kind.spec_bytes())),
                    before.engine.functions.len() as int,
                    os_library(),
                ),
            )
            &&& after.engine.functions == before.engine.functions + kinds(os_library())
            &&& after.classes == before.classes.push("Process"@).push("OutputStream"@)
            &&& after.members == before.members.push(process_class()).push(stream_class())
            &&& after.instances == before.instances
        }
    }

    fn name(&self) -> (r: &'static str) {
        "os"
    }

    fn open(self, engine: &mut Engine, classes: &mut Registry) -> (r: Result<Value, LuaError>) {
        if classes.class_id("Process").is_some() || classes.class_id("OutputStream").is_some() {
            return Err(LuaError::new("class is already registered"));
        }
        // Register classes.
        let process = |b: ClassBuilder| -> (r: ClassBuilder)
            requires
                b@ == ClassView::empty(),
            ensures
                r@ == process_class(),
            {
                b.method("__close".as_bytes(), PROCESS_KILL).finalizer()
            };
        let stream = |b: ClassBuilder| -> (r: ClassBuilder)
            requires
                b@ == ClassView::empty(),
            ensures
                r@ == stream_class(),
            {
                b.method("read".as_bytes(), STREAM_READ)
            };
        let _ = classes.register("Process", process);
        proof {
            reveal_strlit("Process");
            reveal_strlit("OutputStream");
            assert("Process"@.len() != "OutputStream"@.len());
        }
        let _ = classes.register("OutputStream", stream);
        // Create the table.
        proof {
            engine.lemma_bounds();
        }
        engine.new_table();
        let t = engine.value(-1);
        let handle = match t.as_table() {
            Some(handle) => handle,
            None => 0,
        };
        engine.push_string(self.arch);
        engine.set_field(-2, "arch");
        engine.push_string(self.kind);
        engine.set_field(-2, "kind");
        engine.publish(handle, &os_exports());
        engine.pop();
        assert(engine.stack() =~= old(engine).stack());
        assert(engine.tables() =~= old(engine).tables().push(
            published(
                Map::<KeyView, ValueView>::empty().insert(
                    field("arch"),
                    ValueView::Str(self.arch.spec_bytes()),
                ).insert(field("kind"), ValueView::Str(self.kind.spec_bytes())),
                old(engine).functions().len() as int,
                os_library(),
            ),
        ));
        Ok(t)
    }
}

/// Implementation of [Module] for global variable `args`.
pub struct ArgsModule {
    /// Names the boxed table of command-line arguments.
    pub payload: usize,
}

impl Module for ArgsModule {
    open spec fn spec_name(&self) -> Seq<u8> {
        "args".spec_bytes()
    }

    /// The class of the arguments object is registered and the one instance of it is the
    /// module's instance. Where the class name is taken, the module fails and nothing
    /// changes.
    open spec fn opened(&self, before: World, after: World, r: Result<ValueView, Seq<char>>) -> bool {
        if has_class(before.classes, "Args"@) {
            r == Err::<ValueView, Seq<char>>(class_taken()) && after == before
        } else {
            &&& r == Ok::<ValueView, Seq<char>>(
                ValueView::UserData(before.instances.len() as usize),
            )
            &&& after.engine == (EngineView {
                room: reserved(before.engine.room, 1),
                ..before.engine
            })
            &&& after.classes == before.classes.push("Args"@)
            &&& after.members == before.members.push(args_class())
            &&& after.instances == before.instances.push(
                Instance {
                    class: before.classes.len() as usize,
                    payload: self.payload,
                    borrowed: false,
                    finalized: false,
                },
            )
        }
    }

    fn name(&self) -> (r: &'static str) {
        "args"
    }

    fn open(self, engine: &mut Engine, classes: &mut Registry) -> (r: Result<Value, LuaError>) {
        proof {
            classes.lemma_bounds();
        }
        let setup = |b: ClassBuilder| -> (r: ClassBuilder)
            requires
                b@ == ClassView::empty(),
            ensures
                r@ == args_class(),
            {
                b.method("__index".as_bytes(), ARGS_GET)
            };
        let class = match classes.register("Args", setup) {
            Ok(class) => class,
            Err(_) => {
                return Err(LuaError::new("class is already registered"));
            },
        };
        classes.push_userdata(engine, class, self.payload);
        let v = engine.value(-1);
        engine.pop();
        assert(engine.stack() =~= old(engine).stack());
        Ok(v)
    }
}

/// Encapsulates exit code to exit our process.
#[derive(Clone, Copy, PartialEq, Eq, Structural, Debug)]
pub struct Exit(u8);

impl Exit {
    pub closed spec fn spec_code(&self) -> u8 {
        self.0
    }

    #[verifier::when_used_as_spec(spec_code)]
    pub fn code(&self) -> (r: u8)
        ensures
            r == self.spec_code(),
    {
        self.0
    }
}

/// Why the argument of `exit` is refused, where it is: an integer that is no exit code is
/// out of range, anything else is no integer.
pub open spec fn exit_refusal(args: Seq<ValueView>) -> Seq<char> {
    if args.len() >= 1 && args[0] is Integer {
        "value out of range"@
    } else if args.len() >= 1 && args[0] is Float {
        "number has no integer representation"@
    } else {
        mismatch_text(Type::Number.spec_name(), actual_name(args, 1))
    }
}

impl GlobalModule {
    /// Reads the exit code a script asks to end with from argument 1. Only an integer
    /// from 0 to 99 is accepted.
    pub fn exit(frame: &Frame) -> (r: Result<Exit, ArgError>)
        ensures
            match r {
                Ok(x) => {
                    &&& frame.has(1)
                    &&& frame.get(1) == ValueView::Integer(x.code() as i64)
                    &&& x.code() <= MAX_EXIT_CODE
                },
                Err(e) => {
                    &&& !(frame.has(1) && (frame.get(1) matches ValueView::Integer(i) && 0 <= i
                        <= MAX_EXIT_CODE))
                    &&& is_arg_error(e, 1, exit_refusal(frame.arguments()))
                },
            },
    {
        let code = match frame.to_int(1) {
            Ok(code) => code,
            Err(e) => {
                return Err(e);
            },
        };
        if 0 <= code && code <= MAX_EXIT_CODE {
            Ok(Exit(code as u8))
        } else {
            Err(ArgError { position: 1, reason: String::from_str("value out of range") })
        }
    }
}

/// The path components that the values `args[..upto]` give: every one has to be a string
/// of well-formed UTF-8 or an integer, and the first that is not is refused under its
/// position, which counts from 1.
pub open spec fn components_of(args: Seq<ValueView>, upto: int) -> Result<Seq<Seq<char>>, Refusal>
    decreases upto,
{
    if upto <= 0 {
        Ok(Seq::empty())
    } else {
        match components_of(args, upto - 1) {
            Err(e) => Err(e),
            Ok(list) => match text_arg_of(args, upto) {
                Ok(t) => Ok(list.push(t)),
                Err(reason) => Err(Refusal { position: upto, reason }),
            },
        }
    }
}

/// The path components a call gives: those of its arguments, of which there has to be at
/// least one.
pub open spec fn path_of(args: Seq<ValueView>) -> Result<Seq<Seq<char>>, Refusal> {
    if args.len() == 0 {
        Err(
            Refusal {
                position: 1,
                reason: mismatch_text(Type::String.spec_name(), Type::NoValue.spec_name()),
            },
        )
    } else {
        components_of(args, args.len() as int)
    }
}

proof fn lemma_components_refused(args: Seq<ValueView>, at: int, upto: int)
    requires
        0 < at <= upto,
        components_of(args, at) is Err,
    ensures
        components_of(args, upto) == components_of(args, at),
    decreases upto - at,
{
    if at < upto {
        lemma_components_refused(args, at, upto - 1);
    }
}

/// A path whose components could not all be read.
#[derive(Debug)]
pub struct PathRefusal {
    /// The components that were read before the refusal, first to last.
    pub read: Vec<String>,
    /// The refusal of the first argument that is no component.
    pub error: ArgError,
}

/// Reads the components of a path from the arguments of a call, first to last. Where an
/// argument is refused, the components before it are handed out with the refusal, so that
/// what was to be done with each of them can still be done.
pub fn join_path(frame: &Frame) -> (r: Result<Vec<String>, PathRefusal>)
    ensures
        match path_of(frame.arguments()) {
            Ok(list) => r matches Ok(got) && texts(got@) == list,
            Err(refusal) => {
                &&& r matches Err(e)
                &&& is_arg_error(e.error, refusal.position, refusal.reason)
                &&& components_of(frame.arguments(), refusal.position - 1) == Ok::<
                    Seq<Seq<char>>,
                    Refusal,
                >(texts(e.read@))
            },
        },
{
    let n = frame.args();
    let mut out: Vec<String> = Vec::new();
    assert(texts(out@) =~= Seq::<Seq<char>>::empty());
    if n == 0 {
        return match frame.to_utf8(1) {
            Ok(_) => Ok(out),
            Err(error) => Err(PathRefusal { read: out, error }),
        };
    }
    let mut k: usize = 0;
    while k < n
        invariant
            k <= n,
            n == frame.arguments().len(),
            components_of(frame.arguments(), k as int) == Ok::<Seq<Seq<char>>, Refusal>(
                texts(out@),
            ),
        decreases n - k,
    {
        let ghost before = texts(out@);
        match frame.to_utf8(k + 1) {
            Ok(t) => {
                out.push(t);
                assert(texts(out@) =~= before.push(t@));
            },
            Err(error) => {
                proof {
                    lemma_components_refused(frame.arguments(), k + 1, n as int);
                }
                return Err(PathRefusal { read: out, error });
            },
        }
        k += 1;
    }
    Ok(out)
}

/// How `string.capitalize` changes its argument.
#[derive(Clone, Copy, PartialEq, Eq, Structural, Debug)]
pub enum Mode {
    /// The first character becomes uppercase.
    First,
}

impl Mode {
    /// Reads a mode from its name in lower case.
    pub fn parse(v: &str) -> (r: Option<Mode>)
        ensures
            r == if v@ == "first"@ {
                Some(Mode::First)
            } else {
                None
            },
    {
        if same_text(v, "first") {
            Some(Mode::First)
        } else {
            None
        }
    }
}

/// `s` with its first character in uppercase and the rest as it was.
pub open spec fn capitalized(s: Seq<char>) -> Seq<char> {
    if s.len() == 0 {
        s
    } else {
        uppercase_of(s.take(1)) + s.skip(1)
    }
}

/// `s` with `first` in place of its first character; `s` itself where it is empty.
pub fn replace_first(s: &str, first: String) -> (r: String)
    ensures
        r@ == if s@.len() == 0 {
            s@
        } else {
            first@ + s@.skip(1)
        },
{
    let n = s.unicode_len();
    if n == 0 {
        return String::from_str(s);
    }
    let rest = s.substring_char(1, n);
    let mut r = first;
    r.append(rest);
    r
}

/// Capitalizes `s` as `mode` says.
pub fn capitalize(s: &str, mode: Mode) -> (r: String)
    ensures
        r@ == capitalized(s@),
{
    let n = s.unicode_len();
    if n == 0 {
        return String::from_str(s);
    }
    match mode {
        Mode::First => replace_first(s, uppercase(s.substring_char(0, 1))),
    }
}

/// One command-line argument as the user gave it.
#[derive(Debug)]
pub enum ArgValue {
    /// A switch, and whether it was given.
    Flag(bool),
    /// A text argument, and its value where it has one.
    Text(Option<String>),
}

/// One command-line argument with its name.
#[derive(Debug)]
pub struct ArgEntry {
    pub name: String,
    pub value: ArgValue,
}

impl ArgValue {
    /// The type a manifest declares for such an argument.
    pub fn ty(&self) -> (r: ArgType)
        ensures
            r == (match self {
                ArgValue::Flag(_) => ArgType::Bool,
                ArgValue::Text(_) => ArgType::String,
            }),
    {
        match self {
            ArgValue::Flag(_) => ArgType::Bool,
            ArgValue::Text(_) => ArgType::String,
        }
    }

    /// An argument with the same content.
    pub fn dup(&self) -> (r: ArgValue)
        ensures
            r == *self,
    {
        match self {
            ArgValue::Flag(b) => ArgValue::Flag(*b),
            ArgValue::Text(Some(t)) => ArgValue::Text(Some(t.clone())),
            ArgValue::Text(None) => ArgValue::Text(None),
        }
    }

    /// What a script sees of this argument: a boolean for a switch, a string for a text
    /// argument that has a value and `nil` for one that has none.
    pub open spec fn shown(&self) -> ValueView {
        match self {
            ArgValue::Flag(b) => ValueView::Boolean(*b),
            ArgValue::Text(Some(t)) => ValueView::Str(vstd::utf8::encode_utf8(t@)),
            ArgValue::Text(None) => ValueView::Nil,
        }
    }
}

/// The hasher of the table that holds the arguments.
#[verifier::external_type_specification]
#[verifier::external_body]
pub struct ExFxBuildHasher(rustc_hash::FxBuildHasher);

/// The table that holds the arguments of a command, each under its name.
pub type ArgTable = FxHashMap<String, ArgValue>;

/// What a table of arguments shows of each argument, by name.
pub uninterp spec fn shown_args(m: ArgTable) -> Map<Seq<char>, ValueView>;

/// What a table without arguments shows: nothing.
pub open spec fn no_args() -> Map<Seq<char>, ValueView> {
    Map::empty()
}

/// A table without arguments.
///
/// Wraps `FxHashMap::default`, which makes an empty map.
#[verifier::external_body]
fn args_new() -> (m: ArgTable)
    ensures
        shown_args(m) == no_args(),
{
    FxHashMap::default()
}

/// Puts an argument into the table under its name.
///
/// Wraps `HashMap::insert`: the key is bound to the value, and where the key was present
/// the value is replaced. No other key changes.
#[verifier::external_body]
fn args_insert(m: &mut ArgTable, name: String, value: ArgValue)
    ensures
        shown_args(*final(m)) == shown_args(*old(m)).insert(name@, value.shown()),
{
    m.insert(name, value);
}

/// Looks an argument up by name.
///
/// Wraps `HashMap::get`, which returns the value bound to the key, or nothing where the
/// key is not present.
#[verifier::external_body]
fn args_get<'a>(m: &'a ArgTable, name: &str) -> (r: Option<&'a ArgValue>)
    ensures
        match r {
            Some(v) => shown_args(*m).contains_key(name@) && shown_args(*m)[name@] == v.shown(),
            None => !shown_args(*m).contains_key(name@),
        },
{
    m.get(name)
}

/// Class of the global variable `args`.
pub struct Args {
    defs: ArgTable,
}

/// What the arguments `entries` show by name once they are put into a table one after the
/// other: of two with the same name the later one stays.
pub open spec fn args_of(entries: Seq<ArgEntry>) -> Map<Seq<char>, ValueView>
    decreases entries.len(),
{
    if entries.len() == 0 {
        Map::empty()
    } else {
        args_of(entries.drop_last()).insert(entries.last().name@, entries.last().value.shown())
    }
}

/// What a script sees of the argument called `name` where the arguments show `shown`:
/// `nil` for a name that no argument has.
pub open spec fn arg_of(shown: Map<Seq<char>, ValueView>, name: Seq<char>) -> ValueView {
    if shown.contains_key(name) {
        shown[name]
    } else {
        ValueView::Nil
    }
}

impl Args {
    /// What the arguments show, by name.
    pub closed spec fn shown(&self) -> Map<Seq<char>, ValueView> {
        shown_args(self.defs)
    }

    /// Collects the arguments of a command.
    pub fn new(entries: Vec<ArgEntry>) -> (r: Args)
        ensures
            r.shown() == args_of(entries@),
    {
        let mut defs = args_new();
        let mut i: usize = 0;
        assert(entries@.take(0) =~= Seq::<ArgEntry>::empty());
        while i < entries.len()
            invariant
                i <= entries.len(),
                shown_args(defs) == args_of(entries@.take(i as int)),
            decreases entries.len() - i,
        {
            let ghost next = entries@.take(i + 1);
            assert(next.drop_last() =~= entries@.take(i as int));
            assert(next.last() == entries@[i as int]);
            args_insert(&mut defs, entries[i].name.clone(), entries[i].value.dup());
            i += 1;
        }
        assert(entries@.take(entries.len() as int) =~= entries@);
        Args { defs }
    }

    /// Reads the argument that a script asks for by name.
    pub fn get(&self, name: &str) -> (r: Value)
        ensures
            r@ == arg_of(self.shown(), name@),
    {
        match args_get(&self.defs, name) {
            Some(ArgValue::Flag(b)) => Value::Boolean(*b),
            Some(ArgValue::Text(Some(t))) => Value::Str(
                crate::value::copy_bytes(t.as_str().as_bytes()),
            ),
            Some(ArgValue::Text(None)) => Value::Nil,
            None => Value::Nil,
        }
    }
}

/// Why a native call failed.
#[derive(Debug)]
pub enum NativeError {
    /// An argument was refused.
    Argument(ArgError),
    /// The call failed for a reason that belongs to no argument.
    Other(String),
}

/// What parsing `text` as an absolute URL gives: the path of the URL, or the message of
/// the parser where the text is no such URL.
pub uninterp spec fn url_path_of(text: Seq<char>) -> Result<Seq<char>, Seq<char>>;

/// Parses `text` as an absolute URL and hands out the path.
///
/// Wraps `url::Url::parse`. Of the URL it gives, the percent-encoded path is kept; of the
/// error it gives, the message. Both depend on the text alone.
#[verifier::external_body]
fn url_path(text: &str) -> (r: Result<String, String>)
    ensures
        text_result(r) == url_path_of(text@),
{
    match ::url::Url::parse(text) {
        Ok(u) => Ok(u.path().to_owned()),
        Err(e) => Err(e.to_string()),
    }
}

/// Implementation of `Url` class.
#[derive(Debug)]
pub struct Url {
    path: String,
}

/// The position of the argument of `Url.new` that holds the text of the URL.
pub const URL_TEXT: usize = 2;

impl Url {
    /// The path of this URL.
    pub closed spec fn spec_path(&self) -> Seq<char> {
        self.path@
    }

    /// The path of this URL.
    pub fn path(&self) -> (r: &str)
        ensures
            r@ == self.spec_path(),
    {
        self.path.as_str()
    }

    /// Makes the instance for a text that was parsed: a URL with the path that was
    /// found, or, for a text that did not parse, an error of the argument that held it,
    /// with the parser's message as the reason.
    pub fn from_parsed(parsed: Result<String, String>) -> (r: Result<Url, NativeError>)
        ensures
            match parsed {
                Ok(p) => r matches Ok(u) && u.spec_path() == p@,
                Err(e) => r matches Err(NativeError::Argument(a)) && is_arg_error(
                    a,
                    URL_TEXT as int,
                    e@,
                ),
            },
    {
        match parsed {
            Ok(path) => Ok(Url { path }),
            Err(reason) => Err(NativeError::Argument(ArgError { position: URL_TEXT, reason })),
        }
    }

    /// Reads the text of a URL from argument 2 and parses it. A missing argument or one
    /// that is neither a string nor an integer is an error of that argument; a string that
    /// is no text is refused without a position; everything else is as
    /// [`Url::from_parsed`] says of what the parser found.
    pub fn new(frame: &Frame) -> (r: Result<Url, NativeError>)
        ensures
            match string_arg_of(frame.arguments(), URL_TEXT as int) {
                Ok(s) => match text_of_string(s) {
                    Ok(t) => match url_path_of(t) {
                        Ok(p) => r matches Ok(u) && u.spec_path() == p,
                        Err(e) => r matches Err(NativeError::Argument(a)) && is_arg_error(
                            a,
                            URL_TEXT as int,
                            e,
                        ),
                    },
                    Err(reason) => r matches Err(NativeError::Other(m)) && m@ == reason,
                },
                Err(reason) => r matches Err(NativeError::Argument(a)) && is_arg_error(
                    a,
                    URL_TEXT as int,
                    reason,
                ),
            },
    {
        let bytes = match frame.to_str(URL_TEXT) {
            Ok(bytes) => bytes,
            Err(e) => {
                return Err(NativeError::Argument(e));
            },
        };
        match text_value(bytes) {
            Ok(text) => Self::from_parsed(url_path(text.as_str())),
            Err(reason) => Err(NativeError::Other(reason)),
        }
    }
}

} // verus!
