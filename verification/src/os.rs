//! What the `os` functions decide: how their options read, what they hand back and when a
//! spawned process is ended.

use vstd::prelude::*;
use vstd::string::StringExecFns;
use vstd::utf8::{decode_utf8, valid_utf8};
use crate::engine::{field, mismatch, mismatch_text, reserved, Engine, MAX_STACK};
use crate::error::{ArgError, LuaError};
use crate::frame::{
    is_arg_error, nilable_text_arg_of, string_of, string_value, text_of_string, text_value, Frame,
};
use crate::output::{trim, trimmed};
use crate::table::{Key, KeyView};
use crate::text::{decimal, decimal_text, same_text, texts};
use crate::value::{Value, ValueView};

verus! {

/// Which output of a command `os.capture` hands back.
#[derive(Clone, Copy, PartialEq, Eq, Structural, Debug)]
pub enum From {
    Stdout,
    Stderr,
    Both,
}

/// Option of standard stream for `os.spawn`.
#[derive(Clone, Copy, PartialEq, Eq, Structural, Debug)]
pub enum Stream {
    Null,
    Inherit,
    Pipe,
}

/// The reason given for an option that names none of the choices.
pub open spec fn invalid_option(v: Seq<char>) -> Seq<char> {
    "invalid option '"@ + v + "'"@
}

/// The reason given for a `stdout` option that names none of the choices.
pub open spec fn unknown_stdout(v: Seq<char>) -> Seq<char> {
    "unknown option '"@ + v + "' on 'stdout'"@
}

impl From {
    /// The choice that `v` names.
    pub open spec fn parse_of(v: Seq<char>) -> Option<From> {
        if v == "stdout"@ {
            Some(From::Stdout)
        } else if v == "stderr"@ {
            Some(From::Stderr)
        } else if v == "both"@ {
            Some(From::Both)
        } else {
            None
        }
    }

    /// Reads a choice from its name in lower case.
    pub fn parse(v: &str) -> (r: Option<From>)
        ensures
            r == Self::parse_of(v@),
    {
        if same_text(v, "stdout") {
            Some(From::Stdout)
        } else if same_text(v, "stderr") {
            Some(From::Stderr)
        } else if same_text(v, "both") {
            Some(From::Both)
        } else {
            None
        }
    }
}

impl Stream {
    /// The choice that `v` names.
    pub open spec fn parse_of(v: Seq<char>) -> Option<Stream> {
        if v == "null"@ {
            Some(Stream::Null)
        } else if v == "inherit"@ {
            Some(Stream::Inherit)
        } else if v == "pipe"@ {
            Some(Stream::Pipe)
        } else {
            None
        }
    }

    /// Reads a choice from its name in lower case.
    pub fn parse(v: &str) -> (r: Option<Stream>)
        ensures
            r == Self::parse_of(v@),
    {
        if same_text(v, "null") {
            Some(Stream::Null)
        } else if same_text(v, "inherit") {
            Some(Stream::Inherit)
        } else if same_text(v, "pipe") {
            Some(Stream::Pipe)
        } else {
            None
        }
    }
}

/// What a field of an options table reads as when text is expected at `place`: nothing for
/// `nil`, the text of a string of well-formed UTF-8, and otherwise the reason for the
/// refusal.
pub open spec fn text_field_of(v: ValueView, place: Seq<char>) -> Result<
    Option<Seq<char>>,
    Seq<char>,
> {
    match v {
        ValueView::Nil => Ok(None),
        ValueView::Str(s) => if valid_utf8(s) {
            Ok(Some(decode_utf8(s)))
        } else {
            Err("expect UTF-8 string "@ + place)
        },
        _ => Err("expect string "@ + place + ", got "@ + v.ty().spec_name()),
    }
}

/// The content of a result that holds text or nothing.
pub open spec fn optional_text(r: Result<Option<String>, String>) -> Result<
    Option<Seq<char>>,
    Seq<char>,
> {
    match r {
        Ok(Some(t)) => Ok(Some(t@)),
        Ok(None) => Ok(None),
        Err(e) => Err(e@),
    }
}

/// Reads a field of an options table where text is expected at `place`.
pub fn text_field(v: &Value, place: &str) -> (r: Result<Option<String>, String>)
    ensures
        optional_text(r) == text_field_of(v@, place@),
{
    match v {
        Value::Nil => Ok(None),
        Value::Str(_) => match v.to_text() {
            Ok(t) => Ok(Some(t)),
            Err(_) => {
                let mut m = String::from_str("expect UTF-8 string ");
                m.append(place);
                Err(m)
            },
        },
        _ => {
            let mut m = String::from_str("expect string ");
            m.append(place);
            m.append(", got ");
            m.append(v.ty_name());
            Err(m)
        },
    }
}

/// What a required text field reads as: like [`text_field_of`], but `nil` is refused as a
/// value of the wrong type.
pub open spec fn required_text_of(v: ValueView, place: Seq<char>) -> Result<Seq<char>, Seq<char>> {
    match text_field_of(v, place) {
        Ok(Some(t)) => Ok(t),
        Ok(None) => Err("expect string "@ + place + ", got "@ + v.ty().spec_name()),
        Err(e) => Err(e),
    }
}

/// The content of a result that holds text.
pub open spec fn text_result(r: Result<String, String>) -> Result<Seq<char>, Seq<char>> {
    match r {
        Ok(t) => Ok(t@),
        Err(e) => Err(e@),
    }
}

/// Reads a required field of an options table where text is expected at `place`.
pub fn required_text(v: &Value, place: &str) -> (r: Result<String, String>)
    ensures
        text_result(r) == required_text_of(v@, place@),
{
    match text_field(v, place) {
        Ok(Some(t)) => Ok(t),
        Ok(None) => {
            let mut m = String::from_str("expect string ");
            m.append(place);
            m.append(", got ");
            m.append(v.ty_name());
            Err(m)
        },
        Err(e) => Err(e),
    }
}

/// First argument of `os.capture`.
#[derive(Debug)]
pub struct CaptureOptions {
    pub prog: String,
    pub from: From,
}

/// The content of [`CaptureOptions`].
pub struct CaptureOptionsView {
    pub prog: Seq<char>,
    pub from: From,
}

impl View for CaptureOptions {
    type V = CaptureOptionsView;

    open spec fn view(&self) -> CaptureOptionsView {
        CaptureOptionsView { prog: self.prog@, from: self.from }
    }
}

/// What the `from` field of the options of `os.capture` reads as: standard output where it
/// is left out, otherwise the choice it names.
pub open spec fn from_of(v: ValueView) -> Result<From, Seq<char>> {
    match text_field_of(v, "on 'from'"@) {
        Ok(None) => Ok(From::Stdout),
        Ok(Some(t)) => match From::parse_of(t) {
            Some(f) => Ok(f),
            None => Err(invalid_option(t)),
        },
        Err(e) => Err(e),
    }
}

/// How the first argument of `os.capture` reads. A string, or an integer in its decimal
/// notation, is the program, with the default for everything else. A table holds the program at index 1 and may hold `from`;
/// `from` is read first. Anything else is refused. `program` and `from` are what index 1
/// and the `from` field of the table hold.
pub open spec fn capture_options_of(
    first: ValueView,
    absent: bool,
    program: ValueView,
    from: ValueView,
) -> Result<CaptureOptionsView, Seq<char>> {
    if absent {
        Err(mismatch_text("string or table"@, crate::ty::Type::NoValue.spec_name()))
    } else {
        match first {
            ValueView::Str(_) | ValueView::Integer(_) => match text_of_string(
                string_of(first)->Some_0,
            ) {
                Ok(p) => Ok(CaptureOptionsView { prog: p, from: From::Stdout }),
                Err(e) => Err(e),
            },
            ValueView::Table(_) => match from_of(from) {
                Err(e) => Err(e),
                Ok(f) => match required_text_of(program, "at index 1"@) {
                    Err(e) => Err(e),
                    Ok(p) => Ok(CaptureOptionsView { prog: p, from: f }),
                },
            },
            _ => Err(mismatch_text("string or table"@, first.ty().spec_name())),
        }
    }
}

/// The value in field `key` of the table that argument 1 of `frame` refers to; `nil` where
/// argument 1 is no table.
pub open spec fn option_field(frame: &Frame, engine: &Engine, key: KeyView) -> ValueView {
    if frame.has(1) {
        match frame.get(1) {
            ValueView::Table(h) => engine.read(h, key),
            _ => ValueView::Nil,
        }
    } else {
        ValueView::Nil
    }
}

/// Argument 1 of `frame`, `nil` where the call has no argument.
pub open spec fn first_of(frame: &Frame) -> ValueView {
    if frame.has(1) {
        frame.get(1)
    } else {
        ValueView::Nil
    }
}

/// Reads the options of `os.capture` from argument 1. Every refusal is an error of
/// argument 1.
pub fn capture_options(frame: &Frame, engine: &Engine) -> (r: Result<CaptureOptions, ArgError>)
    requires
        engine.wf(),
    ensures
        match capture_options_of(
            first_of(frame),
            !frame.has(1),
            option_field(frame, engine, KeyView::Int(1)),
            option_field(frame, engine, field("from")),
        ) {
            Ok(o) => r matches Ok(got) && got@ == o,
            Err(reason) => r matches Err(e) && is_arg_error(e, 1, reason),
        },
{
    let first = match frame.arg(1) {
        Some(v) => v,
        None => {
            return Err(
                ArgError {
                    position: 1,
                    reason: mismatch("string or table", crate::ty::Type::NoValue.name()),
                },
            );
        },
    };
    match first {
        Value::Str(_) | Value::Integer(_) => {
            let bytes = match string_value(first) {
                Some(b) => b,
                None => Vec::new(),
            };
            match text_value(bytes) {
                Ok(prog) => Ok(CaptureOptions { prog, from: From::Stdout }),
                Err(reason) => Err(ArgError { position: 1, reason }),
            }
        },
        Value::Table(h) => {
            // From.
            let from = match text_field(&engine.field_of(*h, &Key::named("from")), "on 'from'") {
                Ok(None) => From::Stdout,
                Ok(Some(t)) => match From::parse(t.as_str()) {
                    Some(f) => f,
                    None => {
                        let mut m = String::from_str("invalid option '");
                        m.append(t.as_str());
                        m.append("'");
                        return Err(ArgError { position: 1, reason: m });
                    },
                },
                Err(reason) => {
                    return Err(ArgError { position: 1, reason });
                },
            };
            // Program.
            match required_text(&engine.field_of(*h, &Key::Int(1)), "at index 1") {
                Ok(prog) => Ok(CaptureOptions { prog, from }),
                Err(reason) => Err(ArgError { position: 1, reason }),
            }
        },
        _ => Err(ArgError { position: 1, reason: mismatch("string or table", first.ty_name()) }),
    }
}

/// First argument of `os.spawn`.
#[derive(Debug)]
pub struct SpawnOptions {
    pub prog: String,
    pub cwd: Option<String>,
    pub stdout: Stream,
}

/// The content of [`SpawnOptions`].
pub struct SpawnOptionsView {
    pub prog: Seq<char>,
    pub cwd: Option<Seq<char>>,
    pub stdout: Stream,
}

impl View for SpawnOptions {
    type V = SpawnOptionsView;

    open spec fn view(&self) -> SpawnOptionsView {
        SpawnOptionsView {
            prog: self.prog@,
            cwd: match self.cwd {
                Some(c) => Some(c@),
                None => None,
            },
            stdout: self.stdout,
        }
    }
}

/// What the `stdout` field of the options of `os.spawn` reads as: the stream is inherited
/// where the field is left out, otherwise it is what the field names.
pub open spec fn stdout_of(v: ValueView) -> Result<Stream, Seq<char>> {
    match text_field_of(v, "on 'stdout'"@) {
        Ok(None) => Ok(Stream::Inherit),
        Ok(Some(t)) => match Stream::parse_of(t) {
            Some(s) => Ok(s),
            None => Err(unknown_stdout(t)),
        },
        Err(e) => Err(e),
    }
}

/// How the first argument of `os.spawn` reads. A string, or an integer in its decimal
/// notation, is the program, with the defaults for everything else. A table holds the program at index 1 and may hold `cwd` and
/// `stdout`; they are read in that order. Anything else is refused.
pub open spec fn spawn_options_of(
    first: ValueView,
    absent: bool,
    program: ValueView,
    cwd: ValueView,
    stdout: ValueView,
) -> Result<SpawnOptionsView, Seq<char>> {
    if absent {
        Err(mismatch_text("string or table"@, crate::ty::Type::NoValue.spec_name()))
    } else {
        match first {
            ValueView::Str(_) | ValueView::Integer(_) => match text_of_string(
                string_of(first)->Some_0,
            ) {
                Ok(p) => Ok(SpawnOptionsView { prog: p, cwd: None, stdout: Stream::Inherit }),
                Err(e) => Err(e),
            },
            ValueView::Table(_) => match required_text_of(program, "at index 1"@) {
                Err(e) => Err(e),
                Ok(p) => match text_field_of(cwd, "on 'cwd'"@) {
                    Err(e) => Err(e),
                    Ok(c) => match stdout_of(stdout) {
                        Err(e) => Err(e),
                        Ok(s) => Ok(SpawnOptionsView { prog: p, cwd: c, stdout: s }),
                    },
                },
            },
            _ => Err(mismatch_text("string or table"@, first.ty().spec_name())),
        }
    }
}

/// Reads the options of `os.spawn` from argument 1. Every refusal is an error of
/// argument 1.
pub fn spawn_options(frame: &Frame, engine: &Engine) -> (r: Result<SpawnOptions, ArgError>)
    requires
        engine.wf(),
    ensures
        match spawn_options_of(
            first_of(frame),
            !frame.has(1),
            option_field(frame, engine, KeyView::Int(1)),
            option_field(frame, engine, field("cwd")),
            option_field(frame, engine, field("stdout")),
        ) {
            Ok(o) => r matches Ok(got) && got@ == o,
            Err(reason) => r matches Err(e) && is_arg_error(e, 1, reason),
        },
{
    let first = match frame.arg(1) {
        Some(v) => v,
        None => {
            return Err(
                ArgError {
                    position: 1,
                    reason: mismatch("string or table", crate::ty::Type::NoValue.name()),
                },
            );
        },
    };
    match first {
        Value::Str(_) | Value::Integer(_) => {
            let bytes = match string_value(first) {
                Some(b) => b,
                None => Vec::new(),
            };
            match text_value(bytes) {
                Ok(prog) => Ok(SpawnOptions { prog, cwd: None, stdout: Stream::Inherit }),
                Err(reason) => Err(ArgError { position: 1, reason }),
            }
        },
        Value::Table(h) => {
            // Program.
            let prog = match required_text(&engine.field_of(*h, &Key::Int(1)), "at index 1") {
                Ok(prog) => prog,
                Err(reason) => {
                    return Err(ArgError { position: 1, reason });
                },
            };
            // CWD.
            let cwd = match text_field(&engine.field_of(*h, &Key::named("cwd")), "on 'cwd'") {
                Ok(cwd) => cwd,
                Err(reason) => {
                    return Err(ArgError { position: 1, reason });
                },
            };
            // STDOUT.
            let stdout = match text_field(
                &engine.field_of(*h, &Key::named("stdout")),
                "on 'stdout'",
            ) {
                Ok(None) => Stream::Inherit,
                Ok(Some(t)) => match Stream::parse(t.as_str()) {
                    Some(s) => s,
                    None => {
                        let mut m = String::from_str("unknown option '");
                        m.append(t.as_str());
                        m.append("' on 'stdout'");
                        return Err(ArgError { position: 1, reason: m });
                    },
                },
                Err(reason) => {
                    return Err(ArgError { position: 1, reason });
                },
            };
            Ok(SpawnOptions { prog, cwd, stdout })
        },
        _ => Err(ArgError { position: 1, reason: mismatch("string or table", first.ty_name()) }),
    }
}

/// An argument was refused: its position and the reason.
pub struct Refusal {
    pub position: int,
    pub reason: Seq<char>,
}

/// The command-line arguments that the values `args[from..upto]` give: `nil` is skipped,
/// a string of well-formed UTF-8 or an integer is an argument, and the first value that is
/// none of these is refused under its position, which counts from 1.
pub open spec fn command_args_of(args: Seq<ValueView>, from: int, upto: int) -> Result<
    Seq<Seq<char>>,
    Refusal,
>
    decreases upto - from,
{
    if upto <= from {
        Ok(Seq::empty())
    } else {
        match command_args_of(args, from, upto - 1) {
            Err(e) => Err(e),
            Ok(list) => match nilable_text_arg_of(args, upto, true) {
                Ok(Some(t)) => Ok(list.push(t)),
                Ok(None) => Ok(list),
                Err(reason) => Err(Refusal { position: upto, reason }),
            },
        }
    }
}

/// Reads the arguments of the command to run: every argument of the call after the
/// first.
pub fn command_args(frame: &Frame) -> (r: Result<Vec<String>, ArgError>)
    ensures
        match command_args_of(frame.arguments(), 1, frame.arguments().len() as int) {
            Ok(list) => r matches Ok(got) && texts(got@) == list,
            Err(refusal) => r matches Err(e) && is_arg_error(e, refusal.position, refusal.reason),
        },
{
    let n = frame.args();
    let mut out: Vec<String> = Vec::new();
    let mut k: usize = 1;
    assert(texts(out@) =~= Seq::<Seq<char>>::empty());
    if n == 0 {
        return Ok(out);
    }
    while k < n
        invariant
            1 <= k <= n,
            n == frame.arguments().len(),
            command_args_of(frame.arguments(), 1, k as int) == Ok::<Seq<Seq<char>>, Refusal>(
                texts(out@),
            ),
        decreases n - k,
    {
        let ghost before = texts(out@);
        let position = k + 1;
        match frame.to_nilable_utf8(position, true) {
            Ok(None) => {},
            Ok(Some(t)) => {
                out.push(t);
                assert(texts(out@) =~= before.push(t@));
            },
            Err(e) => {
                proof {
                    lemma_command_args_refused(frame.arguments(), 1, position as int, n as int);
                }
                return Err(e);
            },
        }
        k += 1;
    }
    Ok(out)
}

/// A refusal stays: once a value is refused, later values do not matter.
proof fn lemma_command_args_refused(args: Seq<ValueView>, from: int, at: int, upto: int)
    requires
        from < at <= upto,
        command_args_of(args, from, at) is Err,
    ensures
        command_args_of(args, from, upto) == command_args_of(args, from, at),
    decreases upto - at,
{
    if at < upto {
        lemma_command_args_refused(args, from, at, upto - 1);
    }
}

/// What `os.capture` hands back of the output of a command that succeeded.
#[derive(Debug)]
pub enum Captured {
    /// The one stream that was asked for.
    Bytes(Vec<u8>),
    /// Both streams.
    Both { stdout: Vec<u8>, stderr: Vec<u8> },
}

/// Picks what `os.capture` hands back: the stream that `from` names, or both, each with
/// one trailing line terminator removed.
pub fn captured(from: From, stdout: Vec<u8>, stderr: Vec<u8>) -> (r: Captured)
    ensures
        match from {
            From::Stdout => r matches Captured::Bytes(b) && b@ == trimmed(stdout@),
            From::Stderr => r matches Captured::Bytes(b) && b@ == trimmed(stderr@),
            From::Both => r matches Captured::Both { stdout: o, stderr: e } && o@ == trimmed(
                stdout@,
            ) && e@ == trimmed(stderr@),
        },
{
    let mut stdout = stdout;
    let mut stderr = stderr;
    match from {
        From::Stdout => {
            trim(&mut stdout);
            Captured::Bytes(stdout)
        },
        From::Stderr => {
            trim(&mut stderr);
            Captured::Bytes(stderr)
        },
        From::Both => {
            trim(&mut stdout);
            trim(&mut stderr);
            Captured::Both { stdout, stderr }
        },
    }
}

/// The most slots [`push_captured`] occupies while it works.
pub const CAPTURE_SLOTS: usize = 2;

/// Leaves what `os.capture` hands back as the one result on the stack: the bytes of the
/// one stream, or a new table with the fields `stdout` and `stderr`.
pub fn push_captured(engine: &mut Engine, result: Captured)
    requires
        old(engine).wf(),
        old(engine).depth() + CAPTURE_SLOTS <= MAX_STACK,
    ensures
        final(engine).wf(),
        final(engine).functions() == old(engine).functions(),
        final(engine).room() == reserved(old(engine).room(), CAPTURE_SLOTS as nat) - 1,
        match result {
            Captured::Bytes(b) => {
                &&& final(engine).stack() == old(engine).stack().push(ValueView::Str(b@))
                &&& final(engine).tables() == old(engine).tables()
            },
            Captured::Both { stdout, stderr } => {
                &&& final(engine).stack() == old(engine).stack().push(
                    ValueView::Table(old(engine).tables().len() as usize),
                )
                &&& final(engine).tables() == old(engine).tables().push(
                    Map::<KeyView, ValueView>::empty().insert(
                        field("stdout"),
                        ValueView::Str(stdout@),
                    ).insert(field("stderr"), ValueView::Str(stderr@)),
                )
            },
        },
{
    proof {
        engine.lemma_bounds();
    }
    engine.check_stack(CAPTURE_SLOTS);
    match result {
        Captured::Bytes(b) => {
            engine.push_bytes(b.as_slice());
        },
        Captured::Both { stdout, stderr } => {
            engine.new_table();
            engine.push_bytes(stdout.as_slice());
            engine.set_field(-2, "stdout");
            engine.push_bytes(stderr.as_slice());
            engine.set_field(-2, "stderr");
            assert(engine.stack() =~= old(engine).stack().push(
                ValueView::Table(old(engine).tables().len() as usize),
            ));
            assert(engine.tables() =~= old(engine).tables().push(
                Map::<KeyView, ValueView>::empty().insert(
                    field("stdout"),
                    ValueView::Str(stdout@),
                ).insert(field("stderr"), ValueView::Str(stderr@)),
            ));
        },
    }
}

/// The message for a command that ran and reported failure; `status` is how the platform
/// describes the way it ended.
pub fn exit_failure(prog: &str, status: &str) -> (r: String)
    ensures
        r@ == "'"@ + prog@ + "' exited with an error ("@ + status@ + ")"@,
{
    let mut m = String::from_str("'");
    m.append(prog);
    m.append("' exited with an error (");
    m.append(status);
    m.append(")");
    m
}

/// The error for a command that could not be started; `verb` says what was attempted and
/// `causes` holds the message of the platform's error and of each cause behind it.
pub fn start_failure(verb: &str, prog: &str, causes: Vec<String>) -> (r: LuaError)
    ensures
        r.message() == "failed to "@ + verb@ + " '"@ + prog@ + "'"@,
        r.causes() == texts(causes@),
{
    let mut m = String::from_str("failed to ");
    m.append(verb);
    m.append(" '");
    m.append(prog);
    m.append("'");
    LuaError::with_source(m.as_str(), causes)
}

/// What a request to end the child gives on a process whose child is `child`: the id
/// that is handed out for killing and waiting, and the child that is left, which is
/// none.
pub open spec fn kill_of(child: Option<u32>) -> (Option<u32>, Option<u32>) {
    (child, None)
}

/// Class of the value that returned from `os.spawn`.
#[derive(Debug)]
pub struct Process {
    child: Option<u32>,
}

impl Process {
    /// The id of the child process for as long as it has been neither killed nor waited
    /// for.
    pub closed spec fn child(&self) -> Option<u32> {
        self.child
    }

    /// A process that was just spawned under `id`.
    pub fn new(id: u32) -> (r: Process)
        ensures
            r.child() == Some(id),
    {
        Process { child: Some(id) }
    }

    /// Decides whether the child is to be killed and waited for, and hands out its id if
    /// so. That happens for the first request only: whoever asks again, the script or the
    /// finalizer, is told that nothing is left to do.
    pub fn kill(&mut self) -> (r: Option<u32>)
        ensures
            (r, final(self).child()) == kill_of(old(self).child()),
    {
        let id = self.child;
        self.child = None;
        id
    }
}

/// The message for a child that could not be killed or waited for; `verb` says which.
pub fn reap_failure(verb: &str, id: u32, causes: Vec<String>) -> (r: LuaError)
    ensures
        r.message() == "failed to "@ + verb@ + " "@ + decimal_text(id as nat),
        r.causes() == texts(causes@),
{
    let mut m = String::from_str("failed to ");
    m.append(verb);
    m.append(" ");
    let n = decimal(id as u64);
    m.append(n.as_str());
    LuaError::with_source(m.as_str(), causes)
}

/// A child process is killed and waited for exactly once: the first request hands out
/// its id, and every later one, from the script or from the finalizer, hands out nothing.
pub proof fn law_killed_once(child: Option<u32>)
    ensures
        kill_of(child).0 == child,
        kill_of(kill_of(child).1).0 is None,
        kill_of(kill_of(kill_of(child).1).1).0 is None,
{
}

} // verus!
