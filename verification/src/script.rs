//! Running one script from start to end: the runtime is set up, the script is loaded and
//! called, and what it returned decides how the host ends.

use vstd::prelude::*;
use vstd::string::StringExecFns;
use vstd::string::StringSliceAdditionalSpecFns;
use crate::api;
use crate::engine::{
    chunk_name, chunk_name_of, exit_code_of, field, kinds, os_library, published, reserved, Engine,
    EngineError, EngineErrorView, Export, Loaded, GLOBALS, MAX_STACK, REQUIRE_OS_SLOTS,
};
use crate::host::failed;
use crate::table::{lookup, KeyView};
use crate::text::lemma_encode_injective;
use crate::value::{Value, ValueView};

verus! {

/// The exit code of a run that went well.
pub const SUCCESS: u8 = 0;

/// The exit code of a run that failed.
pub const FAILURE: u8 = 1;

/// How a run ended: the exit code of the process and what to print before leaving.
#[derive(Debug)]
pub struct Report {
    pub code: u8,
    pub message: Option<String>,
}

/// The content of a [`Report`].
pub struct ReportView {
    pub code: u8,
    pub message: Option<Seq<char>>,
}

impl View for Report {
    type V = ReportView;

    open spec fn view(&self) -> ReportView {
        ReportView {
            code: self.code,
            message: match self.message {
                Some(m) => Some(m@),
                None => None,
            },
        }
    }
}

/// The `os` table a script finds: the default library without `exit` and `setlocale`,
/// and with the host's own functions. `first` is the handle of the first function
/// object that setting it up creates.
pub open spec fn os_table(first: int) -> Map<KeyView, ValueView> {
    published(
        published(Map::empty(), first, os_library()).remove(field("exit")).remove(
            field("setlocale"),
        ),
        first + os_library().len(),
        api::os_library(),
    )
}

/// Sets up the `os` library of a runtime. The default library is loaded, its `exit` and
/// `setlocale` are removed, and the host's own functions are added. The stack is left as
/// it was found.
pub fn prepare(en: &mut Engine)
    requires
        old(en).wf(),
        old(en).depth() + REQUIRE_OS_SLOTS <= MAX_STACK,
    ensures
        final(en).wf(),
        final(en).stack() == old(en).stack(),
        final(en).room() == reserved(old(en).room(), REQUIRE_OS_SLOTS as nat),
        final(en).functions() == old(en).functions() + kinds(os_library()) + kinds(
            api::os_library(),
        ),
        final(en).tables() == old(en).tables().push(
            os_table(old(en).functions().len() as int),
        ).update(
            GLOBALS as int,
            old(en).tables()[GLOBALS as int].insert(
                field("os"),
                ValueView::Table(old(en).tables().len() as usize),
            ),
        ),
{
    proof {
        en.lemma_bounds();
    }
    let ghost first = old(en).functions().len() as int;
    // Register "os" library.
    en.require_os();
    let t = en.value(-1);
    let h = match t.as_table() {
        Some(h) => h,
        None => 0,
    };
    // Remove "exit" and "setlocale".
    en.push_nil();
    en.set_field(-2, "exit");
    en.push_nil();
    en.set_field(-2, "setlocale");
    // Register "os" APIs.
    en.publish(h, &api::os_exports());
    en.pop();
    assert(en.tables() =~= old(en).tables().push(os_table(first)).update(
        GLOBALS as int,
        old(en).tables()[GLOBALS as int].insert(
            field("os"),
            ValueView::Table(old(en).tables().len() as usize),
        ),
    ));
}

/// What the host reports for a script at `script`, given how loading it ended and, where
/// it compiled, how calling it ended. A script that does not compile or raises an error is
/// reported with the runtime's own message. A script that returns `nil` or an exit code
/// ends the process with that code. Every other failure is reported as a failure to load
/// or to run the script.
pub open spec fn report_of(
    script: Seq<char>,
    loaded: Loaded,
    outcome: Result<Value, String>,
) -> ReportView {
    match loaded {
        Loaded::Unreadable(m) => ReportView {
            code: FAILURE,
            message: Some(failed("load"@, script, EngineErrorView::ReadFile(m@).text())),
        },
        Loaded::Rejected(m) => ReportView { code: FAILURE, message: Some(m@) },
        Loaded::Compiled => match outcome {
            Err(m) => ReportView { code: FAILURE, message: Some(m@) },
            Ok(v) => match exit_code_of(v@) {
                Ok(code) => ReportView { code, message: None },
                Err(e) => ReportView {
                    code: FAILURE,
                    message: Some(failed("run"@, script, e.text())),
                },
            },
        },
    }
}

fn failure(verb: &str, script: &str, e: &EngineError) -> (r: Report)
    ensures
        r@ == (ReportView { code: FAILURE, message: Some(failed(verb@, script@, e@.text())) }),
{
    let mut m = String::from_str("Failed to ");
    m.append(verb);
    m.append(" ");
    m.append(script);
    m.append(": ");
    let text = e.describe();
    m.append(text.as_str());
    m.append(".");
    Report { code: FAILURE, message: Some(m) }
}

/// The tables of a runtime that was set up for a script and nothing else: the table of
/// globals, which binds `os`, and the `os` table the host prepares.
pub open spec fn prepared_tables() -> Seq<Map<KeyView, ValueView>> {
    seq![Map::<KeyView, ValueView>::empty()].push(os_table(0)).update(
        GLOBALS as int,
        Map::<KeyView, ValueView>::empty().insert(field("os"), ValueView::Table(1)),
    )
}

/// Whether `en` is a runtime that was set up for a script and has done nothing since: its
/// stack is empty, and its `os` library is the default one without `exit` and `setlocale`
/// and with the host's own functions.
pub open spec fn prepared(en: &Engine) -> bool {
    &&& en.wf()
    &&& en.stack() == Seq::<ValueView>::empty()
    &&& en.tables() == prepared_tables()
    &&& en.functions() == kinds(os_library()) + kinds(api::os_library())
}

/// Runs the script at `script` on a fresh runtime. The runtime is set up first, and
/// `load` is handed the runtime as it then stands, so that the source is read and compiled
/// under the chunk name it is given against the libraries the host prepared. `call` calls
/// the compiled chunk without arguments and hands back the one value it returned, or the
/// message of the error it raised. The chunk is called only if the source compiled.
pub fn run<L: FnOnce(String, &Engine) -> Loaded, C: FnOnce() -> Result<Value, String>>(
    script: &str,
    load: L,
    call: C,
) -> (r: Report)
    requires
        forall|name: String, en: Engine|
            name@ == chunk_name_of(script@) && prepared(&en) ==> call_requires(
                load,
                (name, &en),
            ),
        call_requires(call, ()),
    ensures
        exists|name: String, en: Engine, loaded: Loaded|
            {
                &&& name@ == chunk_name_of(script@)
                &&& prepared(&en)
                &&& call_ensures(load, (name, &en), loaded)
                &&& match loaded {
                    Loaded::Compiled => exists|outcome: Result<Value, String>|
                        call_ensures(call, (), outcome) && r@ == report_of(
                            script@,
                            loaded,
                            outcome,
                        ),
                    _ => forall|outcome: Result<Value, String>|
                        r@ == report_of(script@, loaded, outcome),
                }
            },
{
    let mut en = Engine::new();
    prepare(&mut en);
    assert(en.functions() =~= kinds(os_library()) + kinds(api::os_library()));
    assert(prepared(&en));
    // Load script.
    let name = chunk_name(script);
    let ghost name0 = name;
    let ghost en0 = en;
    let loaded = load(name, &en);
    let ghost loaded0 = loaded;
    assert(call_ensures(load, (name0, &en0), loaded0));
    match en.load(loaded) {
        Ok(_) => (),
        Err(EngineError::LoadFile(v)) => {
            return Report { code: FAILURE, message: Some(v) };
        },
        Err(e) => {
            return failure("load", script, &e);
        },
    }
    // Run the script.
    proof {
        en.lemma_bounds();
    }
    let outcome = call();
    let ghost outcome0 = outcome;
    let r = match en.run(outcome) {
        Ok(v) => Report { code: v, message: None },
        Err(EngineError::RunScript(v)) => Report { code: FAILURE, message: Some(v) },
        Err(e) => failure("run", script, &e),
    };
    assert(call_ensures(call, (), outcome0) && r@ == report_of(script@, loaded0, outcome0));
    r
}

/// Publishing functions leaves every other key as it was.
pub proof fn lemma_published_elsewhere(
    m: Map<KeyView, ValueView>,
    first: int,
    es: Seq<Export>,
    k: KeyView,
)
    requires
        forall|i: int| 0 <= i < es.len() ==> field(#[trigger] es[i].name) != k,
    ensures
        lookup(published(m, first, es), k) == lookup(m, k),
    decreases es.len(),
{
    if es.len() > 0 {
        let rest = es.drop_last();
        assert forall|i: int| 0 <= i < rest.len() implies field(#[trigger] rest[i].name) != k by {
            assert(rest[i] == es[i]);
        }
        lemma_published_elsewhere(m, first, rest, k);
    }
}

/// Two names that differ are different keys.
pub proof fn lemma_fields_differ(a: &str, b: &str)
    requires
        a@ != b@,
    ensures
        field(a) != field(b),
{
    if a.spec_bytes() == b.spec_bytes() {
        lemma_encode_injective(a@, b@);
    }
}

proof fn lemma_host_names_differ(name: &str)
    requires
        name@ == "exit"@ || name@ == "setlocale"@,
    ensures
        forall|i: int|
            0 <= i < api::os_library().len() ==> field(#[trigger] api::os_library()[i].name)
                != field(name),
{
    reveal_strlit("exit");
    reveal_strlit("setlocale");
    reveal_strlit("capture");
    reveal_strlit("createdir");
    reveal_strlit("removedir");
    reveal_strlit("run");
    reveal_strlit("spawn");
    lemma_fields_differ("capture", name);
    lemma_fields_differ("createdir", name);
    lemma_fields_differ("removedir", name);
    lemma_fields_differ("run", name);
    lemma_fields_differ("spawn", name);
}

/// A script cannot reach the default `exit` or `setlocale` through `os`: the table the
/// host prepares binds neither name.
pub proof fn law_os_stripped(first: int)
    ensures
        lookup(os_table(first), field("exit")) is Nil,
        lookup(os_table(first), field("setlocale")) is Nil,
{
    let base = published(Map::empty(), first, os_library());
    let stripped = base.remove(field("exit")).remove(field("setlocale"));
    lemma_host_names_differ("exit");
    lemma_host_names_differ("setlocale");
    lemma_published_elsewhere(stripped, first + os_library().len(), api::os_library(), field("exit"));
    lemma_published_elsewhere(
        stripped,
        first + os_library().len(),
        api::os_library(),
        field("setlocale"),
    );
}

} // verus!
