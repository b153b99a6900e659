//! Bringing up a runtime for a command: the host's modules are opened in a fixed order.

use vstd::prelude::*;
use vstd::string::StringSliceAdditionalSpecFns;
use crate::api::{
    args_class, opens_table, global_library, json_library, os_library, path_library, process_class,
    stream_class, url_library, ArgsModule,
    GlobalModule, JsonModule, OsModule, PathModule, UrlModule,
};
use crate::engine::{
    field, kinds, published, reserved, Engine, EngineView, Export, GLOBALS, MAX_STACK,
};
use crate::api::class_taken;
use crate::module::{with_global, world, Module, ModuleError, Modules, World, OPEN_SLOTS};
use crate::registry::{has_class, Instance, Registry};
use crate::script::{lemma_fields_differ, lemma_published_elsewhere};
use crate::table::lookup;
use crate::table::KeyView;
use crate::value::ValueView;

verus! {

/// The keys under which the host's modules are recorded.
pub open spec fn module_keys() -> Set<KeyView> {
    set![field("args"), field("_G"), field("json"), field("os"), field("path"), field("Url")]
}

/// The classes that the host's modules register, in the order they are registered.
pub open spec fn module_classes() -> Seq<Seq<char>> {
    seq!["Args"@, "Process"@, "OutputStream"@]
}

/// Whether the host's modules can all be opened: none of their names is in use and none
/// of their class names is taken.
pub open spec fn installable(loaded: Map<KeyView, ValueView>, classes: Seq<Seq<char>>) -> bool {
    &&& forall|k: KeyView| module_keys().contains(k) ==> !loaded.contains_key(k)
    &&& forall|i: int| 0 <= i < module_classes().len() ==> !has_class(classes, module_classes()[i])
}

/// The bindings `m` with the instance of every module that has a table bound under the
/// module's name, where `tables` is the number of tables before any of them opened: the
/// global module's instance is the table of globals, the others follow in the order they
/// open.
pub open spec fn bound(m: Map<KeyView, ValueView>, tables: nat) -> Map<KeyView, ValueView> {
    m.insert(field("_G"), ValueView::Table(GLOBALS)).insert(
        field("json"),
        ValueView::Table(tables as usize),
    ).insert(field("os"), ValueView::Table((tables + 1) as usize)).insert(
        field("path"),
        ValueView::Table((tables + 2) as usize),
    ).insert(field("Url"), ValueView::Table((tables + 3) as usize))
}

/// The bindings `m` with the arguments object, which is instance `instances`, bound under
/// `args`.
pub open spec fn with_args(m: Map<KeyView, ValueView>, instances: nat) -> Map<
    KeyView,
    ValueView,
> {
    m.insert(field("args"), ValueView::UserData(instances as usize))
}

/// The world once the host's modules are opened in the world `w`. The table of globals
/// holds what it held, then the arguments object, then the functions of the global module,
/// then the instance of every other module, a later binding replacing an earlier one of
/// the same name. Four tables are new, one each for `json`, `os`, `path` and `Url`. The
/// functions of the five libraries are new function objects, in the order the modules
/// open. The three classes are registered, each with its members, and the arguments
/// object is the one new instance. As much room is reserved as a module may occupy while it
/// opens.
pub open spec fn installed(w: World, payload: usize, arch: Seq<u8>, kind: Seq<u8>) -> World {
    let t0 = w.engine.tables.len();
    let f0 = w.engine.functions.len() as int;
    let f1 = f0 + global_library().len();
    let f2 = f1 + json_library().len();
    let f3 = f2 + os_library().len();
    let f4 = f3 + path_library().len();
    let globals = bound(
        published(
            with_args(w.engine.tables[GLOBALS as int], w.instances.len()),
            f0,
            global_library(),
        ),
        t0,
    );
    World {
        engine: EngineView {
            stack: w.engine.stack,
            room: reserved(w.engine.room, OPEN_SLOTS as nat),
            tables: w.engine.tables.update(GLOBALS as int, globals).push(
                published(Map::empty(), f1, json_library()),
            ).push(
                published(
                    Map::<KeyView, ValueView>::empty().insert(
                        field("arch"),
                        ValueView::Str(arch),
                    ).insert(field("kind"), ValueView::Str(kind)),
                    f2,
                    os_library(),
                ),
            ).push(published(Map::empty(), f3, path_library())).push(
                published(Map::empty(), f4, url_library()),
            ),
            functions: w.engine.functions + kinds(global_library()) + kinds(json_library())
                + kinds(os_library()) + kinds(path_library()) + kinds(url_library()),
        },
        classes: w.classes + module_classes(),
        members: w.members.push(args_class()).push(process_class()).push(stream_class()),
        instances: w.instances.push(
            Instance {
                class: w.classes.len() as usize,
                payload,
                borrowed: false,
                finalized: false,
            },
        ),
    }
}

/// The number of modules the host opens.
pub const MODULES: usize = 6;

/// The key under which module `i` is recorded, the modules counted from 0 in the order
/// they open.
pub open spec fn module_key(i: int) -> KeyView {
    if i == 0 {
        field("args")
    } else if i == 1 {
        field("_G")
    } else if i == 2 {
        field("json")
    } else if i == 3 {
        field("os")
    } else if i == 4 {
        field("path")
    } else {
        field("Url")
    }
}

/// Whether module `i` cannot be opened on a runtime that had `loaded` on record and
/// `classes` registered before any of the modules opened: its name is in use, or the name
/// of a class it registers is taken.
pub open spec fn refused(i: int, loaded: Map<KeyView, ValueView>, classes: Seq<Seq<char>>) -> bool {
    ||| loaded.contains_key(module_key(i))
    ||| i == 0 && has_class(classes, "Args"@)
    ||| i == 3 && (has_class(classes, "Process"@) || has_class(classes, "OutputStream"@))
}

/// The first module that cannot be opened, or the number of modules where all can.
pub open spec fn refused_at(loaded: Map<KeyView, ValueView>, classes: Seq<Seq<char>>) -> int {
    if refused(0, loaded, classes) {
        0
    } else if refused(1, loaded, classes) {
        1
    } else if refused(2, loaded, classes) {
        2
    } else if refused(3, loaded, classes) {
        3
    } else if refused(4, loaded, classes) {
        4
    } else if refused(5, loaded, classes) {
        5
    } else {
        6
    }
}

/// The world once a module that publishes `exports` in a table of its own was opened in
/// the world `w` and bound to the global variable `name`.
pub open spec fn table_step(w: World, name: Seq<u8>, base: Map<KeyView, ValueView>, slots: nat, exports: Seq<
    Export,
>) -> World {
    World {
        engine: with_global(
            EngineView {
                room: reserved(w.engine.room, slots),
                tables: w.engine.tables.push(
                    published(base, w.engine.functions.len() as int, exports),
                ),
                functions: w.engine.functions + kinds(exports),
                ..w.engine
            },
            name,
            ValueView::Table(w.engine.tables.len() as usize),
        ),
        ..w
    }
}

/// The world once module `i` was opened in the world `w` and bound to the global variable
/// of its name.
pub open spec fn opened_step(i: int, w: World, payload: usize, arch: Seq<u8>, kind: Seq<u8>) -> World {
    if i == 0 {
        World {
            engine: with_global(
                EngineView { room: reserved(w.engine.room, 1), ..w.engine },
                "args".spec_bytes(),
                ValueView::UserData(w.instances.len() as usize),
            ),
            classes: w.classes.push("Args"@),
            members: w.members.push(args_class()),
            instances: w.instances.push(
                Instance {
                    class: w.classes.len() as usize,
                    payload,
                    borrowed: false,
                    finalized: false,
                },
            ),
        }
    } else if i == 1 {
        World {
            engine: with_global(
                EngineView {
                    tables: w.engine.tables.update(
                        GLOBALS as int,
                        published(
                            w.engine.tables[GLOBALS as int],
                            w.engine.functions.len() as int,
                            global_library(),
                        ),
                    ),
                    functions: w.engine.functions + kinds(global_library()),
                    ..w.engine
                },
                "_G".spec_bytes(),
                ValueView::Table(GLOBALS),
            ),
            ..w
        }
    } else if i == 2 {
        table_step(w, "json".spec_bytes(), Map::empty(), 1, json_library())
    } else if i == 3 {
        World {
            classes: w.classes.push("Process"@).push("OutputStream"@),
            members: w.members.push(process_class()).push(stream_class()),
            ..table_step(
                w,
                "os".spec_bytes(),
                Map::<KeyView, ValueView>::empty().insert(
                    field("arch"),
                    ValueView::Str(arch),
                ).insert(field("kind"), ValueView::Str(kind)),
                OPEN_SLOTS as nat,
                os_library(),
            )
        }
    } else if i == 4 {
        table_step(w, "path".spec_bytes(), Map::empty(), 1, path_library())
    } else {
        table_step(w, "Url".spec_bytes(), Map::empty(), 1, url_library())
    }
}

/// The world once the first `n` modules were opened in the world `w`.
pub open spec fn installed_upto(
    w: World,
    payload: usize,
    arch: Seq<u8>,
    kind: Seq<u8>,
    n: nat,
) -> World
    decreases n,
{
    if n == 0 {
        w
    } else {
        opened_step(
            n - 1,
            installed_upto(w, payload, arch, kind, (n - 1) as nat),
            payload,
            arch,
            kind,
        )
    }
}

/// The instance of module `i` where there were `instances` instances and `tables` tables
/// before any of the modules opened.
pub open spec fn module_instance(i: int, instances: nat, tables: nat) -> ValueView {
    if i == 0 {
        ValueView::UserData(instances as usize)
    } else if i == 1 {
        ValueView::Table(GLOBALS)
    } else {
        ValueView::Table((tables + i - 2) as usize)
    }
}

/// The modules on record once the first `n` modules were opened.
pub open spec fn loaded_upto(
    loaded: Map<KeyView, ValueView>,
    instances: nat,
    tables: nat,
    n: nat,
) -> Map<KeyView, ValueView>
    decreases n,
{
    if n == 0 {
        loaded
    } else {
        loaded_upto(loaded, instances, tables, (n - 1) as nat).insert(
            module_key(n - 1),
            module_instance(n - 1, instances, tables),
        )
    }
}

/// What an installation that stopped leaves: the error of the first module that could not
/// be opened, with the modules before it opened and recorded and nothing else changed.
pub open spec fn stopped(
    r: Result<(), ModuleError>,
    loaded: Map<KeyView, ValueView>,
    w: World,
    payload: usize,
    arch: Seq<u8>,
    kind: Seq<u8>,
    after_loaded: Map<KeyView, ValueView>,
    after: World,
) -> bool {
    let k = refused_at(loaded, w.classes);
    &&& 0 <= k < MODULES
    &&& if loaded.contains_key(module_key(k)) {
        r matches Err(ModuleError::Exists)
    } else {
        r matches Err(ModuleError::Open(e)) && e.formatted() == class_taken()
    }
    &&& after == installed_upto(w, payload, arch, kind, k as nat)
    &&& after_loaded == loaded_upto(loaded, w.instances.len(), w.engine.tables.len(), k as nat)
}

proof fn lemma_names_differ()
    ensures
        field("args") != field("_G"),
        field("args") != field("json"),
        field("args") != field("os"),
        field("args") != field("path"),
        field("args") != field("Url"),
        field("_G") != field("json"),
        field("_G") != field("os"),
        field("_G") != field("path"),
        field("_G") != field("Url"),
        field("json") != field("os"),
        field("json") != field("path"),
        field("json") != field("Url"),
        field("os") != field("path"),
        field("os") != field("Url"),
        field("path") != field("Url"),
        "Args"@ != "Process"@,
        "Args"@ != "OutputStream"@,
        "Process"@ != "OutputStream"@,
{
    reveal_strlit("args");
    reveal_strlit("_G");
    reveal_strlit("json");
    reveal_strlit("os");
    reveal_strlit("path");
    reveal_strlit("Url");
    reveal_strlit("Args");
    reveal_strlit("Process");
    reveal_strlit("OutputStream");
    assert("Args"@.len() == 4);
    assert("Process"@.len() == 7);
    lemma_fields_differ("args", "_G");
    lemma_fields_differ("args", "json");
    lemma_fields_differ("args", "os");
    lemma_fields_differ("args", "path");
    lemma_fields_differ("args", "Url");
    lemma_fields_differ("_G", "json");
    lemma_fields_differ("_G", "os");
    lemma_fields_differ("_G", "path");
    lemma_fields_differ("_G", "Url");
    lemma_fields_differ("json", "os");
    lemma_fields_differ("json", "path");
    lemma_fields_differ("json", "Url");
    lemma_fields_differ("os", "path");
    lemma_fields_differ("os", "Url");
    lemma_fields_differ("path", "Url");
}

/// Opens the host's modules, each as a global variable: `args`, `_G`, `json`, `os`,
/// `path` and `Url`, in that order. All of them open exactly when none of their names is
/// in use and none of their class names is taken; the first one that cannot be opened
/// ends the attempt with its error, and the modules before it stay open.
pub fn install(
    engine: &mut Engine,
    modules: &mut Modules,
    classes: &mut Registry,
    args: ArgsModule,
    os: OsModule,
) -> (r: Result<(), ModuleError>)
    requires
        old(modules).wf(),
        old(engine).wf(),
        old(engine).depth() + OPEN_SLOTS <= MAX_STACK,
    ensures
        final(modules).wf(),
        final(engine).wf(),
        final(engine).stack() == old(engine).stack(),
        r is Ok <==> installable(old(modules).loaded(), old(classes).names()),
        r is Err ==> stopped(
            r,
            old(modules).loaded(),
            world(old(engine), old(classes)),
            args.payload,
            os.arch.spec_bytes(),
            os.kind.spec_bytes(),
            final(modules).loaded(),
            world(final(engine), final(classes)),
        ),
        r is Ok ==> {
            &&& final(modules).loaded() == bound(
                with_args(old(modules).loaded(), old(classes).instances().len()),
                old(engine).tables().len(),
            )
            &&& world(final(engine), final(classes)) == installed(
                world(old(engine), old(classes)),
                args.payload,
                os.arch.spec_bytes(),
                os.kind.spec_bytes(),
            )
        },
{
    proof {
        lemma_names_differ();
        engine.lemma_bounds();
        classes.lemma_bounds();
        reveal_with_fuel(installed_upto, 7);
        reveal_with_fuel(loaded_upto, 7);
    }
    let ghost pay = args.payload;
    let ghost arch = os.arch.spec_bytes();
    let ghost kind = os.kind.spec_bytes();
    let ghost w0 = world(engine, classes);
    let ghost l0 = modules.loaded();
    let ghost c0 = classes.names();
    assert(module_classes()[0] == "Args"@);
    assert(module_classes()[1] == "Process"@);
    assert(module_classes()[2] == "OutputStream"@);
    assert(module_keys().contains(field("args")));
    assert(module_keys().contains(field("_G")));
    assert(module_keys().contains(field("json")));
    assert(module_keys().contains(field("os")));
    assert(module_keys().contains(field("path")));
    assert(module_keys().contains(field("Url")));

    match open_args(engine, modules, classes, args, Ghost(arch), Ghost(kind)) {
        Ok(_) => {},
        Err(e) => {
            return Err(e);
        },
    }
    let ghost c1 = classes.names();
    match open_global(engine, modules, classes, Ghost(pay), Ghost(arch), Ghost(kind)) {
        Ok(_) => {},
        Err(e) => {
            return Err(e);
        },
    }
    match open_table_module(engine, modules, classes, JsonModule, "json", Ghost(json_library())) {
        Ok(_) => {},
        Err(e) => {
            return Err(e);
        },
    }
    assert(has_class(c1, "Process"@) <==> has_class(c0, "Process"@)) by {
        if has_class(c1, "Process"@) {
            let i = choose|i: int| 0 <= i < c1.len() && c1[i] == "Process"@;
            assert(c0[i] == "Process"@);
        }
        if has_class(c0, "Process"@) {
            let i = choose|i: int| 0 <= i < c0.len() && c0[i] == "Process"@;
            assert(c1[i] == "Process"@);
        }
    }
    assert(has_class(c1, "OutputStream"@) <==> has_class(c0, "OutputStream"@)) by {
        if has_class(c1, "OutputStream"@) {
            let i = choose|i: int| 0 <= i < c1.len() && c1[i] == "OutputStream"@;
            assert(c0[i] == "OutputStream"@);
        }
        if has_class(c0, "OutputStream"@) {
            let i = choose|i: int| 0 <= i < c0.len() && c0[i] == "OutputStream"@;
            assert(c1[i] == "OutputStream"@);
        }
    }
    match open_os(engine, modules, classes, os, Ghost(pay)) {
        Ok(_) => {},
        Err(e) => {
            return Err(e);
        },
    }
    match open_table_module(engine, modules, classes, PathModule, "path", Ghost(path_library())) {
        Ok(_) => {},
        Err(e) => {
            return Err(e);
        },
    }
    match open_table_module(engine, modules, classes, UrlModule, "Url", Ghost(url_library())) {
        Ok(_) => {},
        Err(e) => {
            return Err(e);
        },
    }
    proof {
        lemma_installed_closed_form(w0, pay, arch, kind);
        assert(modules.loaded() =~= bound(with_args(l0, w0.instances.len()), w0.engine.tables.len()));
        assert(installable(l0, c0)) by {
            assert forall|k: KeyView| module_keys().contains(k) implies !l0.contains_key(k) by {}
            assert forall|i: int| 0 <= i < module_classes().len() implies !has_class(
                c0,
                module_classes()[i],
            ) by {}
        }
    }
    Ok(())
}

/// Opens the arguments module as the global variable `args`.
fn open_args(
    engine: &mut Engine,
    modules: &mut Modules,
    classes: &mut Registry,
    args: ArgsModule,
    Ghost(arch): Ghost<Seq<u8>>,
    Ghost(kind): Ghost<Seq<u8>>,
) -> (r: Result<(), ModuleError>)
    requires
        old(modules).wf(),
        old(engine).wf(),
        old(engine).depth() + OPEN_SLOTS <= MAX_STACK,
    ensures
        final(modules).wf(),
        final(engine).wf(),
        final(engine).stack() == old(engine).stack(),
        if old(modules).loaded().contains_key(field("args")) {
            &&& r matches Err(ModuleError::Exists)
            &&& world(final(engine), final(classes)) == world(old(engine), old(classes))
            &&& final(modules).loaded() == old(modules).loaded()
        } else if has_class(old(classes).names(), "Args"@) {
            &&& r matches Err(ModuleError::Open(e)) && e.formatted() == class_taken()
            &&& world(final(engine), final(classes)) == world(old(engine), old(classes))
            &&& final(modules).loaded() == old(modules).loaded()
        } else {
            &&& r is Ok
            &&& world(final(engine), final(classes)) == opened_step(
                0,
                world(old(engine), old(classes)),
                args.payload,
                arch,
                kind,
            )
            &&& final(modules).loaded() == old(modules).loaded().insert(
                field("args"),
                ValueView::UserData(old(classes).instances().len() as usize),
            )
        },
{
    modules.use_module(engine, classes, None, true, args)
}

/// Opens the global module as the global variable `_G`.
fn open_global(
    engine: &mut Engine,
    modules: &mut Modules,
    classes: &mut Registry,
    Ghost(pay): Ghost<usize>,
    Ghost(arch): Ghost<Seq<u8>>,
    Ghost(kind): Ghost<Seq<u8>>,
) -> (r: Result<(), ModuleError>)
    requires
        old(modules).wf(),
        old(engine).wf(),
        old(engine).depth() + OPEN_SLOTS <= MAX_STACK,
    ensures
        final(modules).wf(),
        final(engine).wf(),
        final(engine).stack() == old(engine).stack(),
        if old(modules).loaded().contains_key(field("_G")) {
            &&& r matches Err(ModuleError::Exists)
            &&& world(final(engine), final(classes)) == world(old(engine), old(classes))
            &&& final(modules).loaded() == old(modules).loaded()
        } else {
            &&& r is Ok
            &&& world(final(engine), final(classes)) == opened_step(
                1,
                world(old(engine), old(classes)),
                pay,
                arch,
                kind,
            )
            &&& final(modules).loaded() == old(modules).loaded().insert(
                field("_G"),
                ValueView::Table(GLOBALS),
            )
        },
{
    modules.use_module(engine, classes, None, true, GlobalModule)
}

/// Opens the `os` module as the global variable `os`.
fn open_os(
    engine: &mut Engine,
    modules: &mut Modules,
    classes: &mut Registry,
    os: OsModule,
    Ghost(pay): Ghost<usize>,
) -> (r: Result<(), ModuleError>)
    requires
        old(modules).wf(),
        old(engine).wf(),
        old(engine).depth() + OPEN_SLOTS <= MAX_STACK,
    ensures
        final(modules).wf(),
        final(engine).wf(),
        final(engine).stack() == old(engine).stack(),
        if old(modules).loaded().contains_key(field("os")) {
            &&& r matches Err(ModuleError::Exists)
            &&& world(final(engine), final(classes)) == world(old(engine), old(classes))
            &&& final(modules).loaded() == old(modules).loaded()
        } else if has_class(old(classes).names(), "Process"@) || has_class(
            old(classes).names(),
            "OutputStream"@,
        ) {
            &&& r matches Err(ModuleError::Open(e)) && e.formatted() == class_taken()
            &&& world(final(engine), final(classes)) == world(old(engine), old(classes))
            &&& final(modules).loaded() == old(modules).loaded()
        } else {
            &&& r is Ok
            &&& world(final(engine), final(classes)) == opened_step(
                3,
                world(old(engine), old(classes)),
                pay,
                os.arch.spec_bytes(),
                os.kind.spec_bytes(),
            )
            &&& final(modules).loaded() == old(modules).loaded().insert(
                field("os"),
                ValueView::Table(old(engine).tables().len() as usize),
            )
        },
{
    modules.use_module(engine, classes, None, true, os)
}

/// Opens a module that publishes `exports` in a table of its own as the global variable
/// `name`.
fn open_table_module<M: Module>(
    engine: &mut Engine,
    modules: &mut Modules,
    classes: &mut Registry,
    module: M,
    name: &'static str,
    Ghost(exports): Ghost<Seq<Export>>,
) -> (r: Result<(), ModuleError>)
    requires
        old(modules).wf(),
        old(engine).wf(),
        old(engine).depth() + OPEN_SLOTS <= MAX_STACK,
        module.spec_name() == name.spec_bytes(),
        forall|b: World, a: World, res: Result<ValueView, Seq<char>>| #[trigger]
            module.opened(b, a, res) == opens_table(b, a, res, exports),
    ensures
        final(modules).wf(),
        final(engine).wf(),
        final(engine).stack() == old(engine).stack(),
        if old(modules).loaded().contains_key(field(name)) {
            &&& r matches Err(ModuleError::Exists)
            &&& world(final(engine), final(classes)) == world(old(engine), old(classes))
            &&& final(modules).loaded() == old(modules).loaded()
        } else {
            &&& r is Ok
            &&& world(final(engine), final(classes)) == table_step(
                world(old(engine), old(classes)),
                name.spec_bytes(),
                Map::empty(),
                1,
                exports,
            )
            &&& final(modules).loaded() == old(modules).loaded().insert(
                field(name),
                ValueView::Table(old(engine).tables().len() as usize),
            )
        },
{
    modules.use_module(engine, classes, None, true, module)
}

/// Opening the six modules one after the other gives the world that [`installed`] states
/// in one piece.
proof fn lemma_installed_closed_form(w: World, payload: usize, arch: Seq<u8>, kind: Seq<u8>)
    requires
        w.engine.tables.len() >= 1,
    ensures
        installed_upto(w, payload, arch, kind, 6) == installed(w, payload, arch, kind),
{
    reveal_with_fuel(installed_upto, 7);
    let w1 = installed_upto(w, payload, arch, kind, 1);
    let w2 = installed_upto(w, payload, arch, kind, 2);
    let w3 = installed_upto(w, payload, arch, kind, 3);
    let w4 = installed_upto(w, payload, arch, kind, 4);
    let w5 = installed_upto(w, payload, arch, kind, 5);
    let w6 = installed_upto(w, payload, arch, kind, 6);
    let t = installed(w, payload, arch, kind);
    assert(w1 == opened_step(0, w, payload, arch, kind));
    assert(w2 == opened_step(1, w1, payload, arch, kind));
    assert(w3 == opened_step(2, w2, payload, arch, kind));
    assert(w4 == opened_step(3, w3, payload, arch, kind));
    assert(w5 == opened_step(4, w4, payload, arch, kind));
    assert(w6 == opened_step(5, w5, payload, arch, kind));
    assert(w2.engine.tables.len() == w.engine.tables.len());
    assert(w3.engine.tables.len() == w.engine.tables.len() + 1);
    assert(w4.engine.tables.len() == w.engine.tables.len() + 2);
    assert(w5.engine.tables.len() == w.engine.tables.len() + 3);
    assert(w6.engine.tables =~= t.engine.tables);
    assert(w6.engine.functions =~= t.engine.functions);
    assert(w6.engine.room == t.engine.room);
    assert(w6.engine.stack == t.engine.stack);
    assert(w6.classes =~= t.classes);
    assert(w6.members =~= t.members);
    assert(w6.instances =~= t.instances);
}

proof fn lemma_args_is_no_base_function()
    ensures
        forall|i: int|
            0 <= i < global_library().len() ==> field(#[trigger] global_library()[i].name)
                != field("args"),
{
    reveal_strlit("args");
    reveal_strlit("assert");
    reveal_strlit("error");
    reveal_strlit("exit");
    reveal_strlit("getmetatable");
    reveal_strlit("load");
    reveal_strlit("next");
    reveal_strlit("pairs");
    reveal_strlit("print");
    reveal_strlit("rawequal");
    reveal_strlit("rawget");
    reveal_strlit("rawlen");
    reveal_strlit("rawset");
    reveal_strlit("select");
    reveal_strlit("setmetatable");
    reveal_strlit("tonumber");
    reveal_strlit("tostring");
    reveal_strlit("type");
    lemma_fields_differ("assert", "args");
    lemma_fields_differ("error", "args");
    lemma_fields_differ("exit", "args");
    lemma_fields_differ("getmetatable", "args");
    lemma_fields_differ("load", "args");
    lemma_fields_differ("next", "args");
    lemma_fields_differ("pairs", "args");
    lemma_fields_differ("print", "args");
    lemma_fields_differ("rawequal", "args");
    lemma_fields_differ("rawget", "args");
    lemma_fields_differ("rawlen", "args");
    lemma_fields_differ("rawset", "args");
    lemma_fields_differ("select", "args");
    lemma_fields_differ("setmetatable", "args");
    lemma_fields_differ("tonumber", "args");
    lemma_fields_differ("tostring", "args");
    lemma_fields_differ("type", "args");
}

/// Once the host's modules are opened, a script reaches every one of them through the
/// global variable of its name: no later binding has replaced an earlier one.
pub proof fn law_modules_are_globals(w: World, payload: usize, arch: Seq<u8>, kind: Seq<u8>)
    requires
        w.engine.tables.len() >= 1,
    ensures
        ({
            let g = installed(w, payload, arch, kind).engine.tables[GLOBALS as int];
            let t0 = w.engine.tables.len();
            &&& lookup(g, field("args")) == ValueView::UserData(w.instances.len() as usize)
            &&& lookup(g, field("_G")) == ValueView::Table(GLOBALS)
            &&& lookup(g, field("json")) == ValueView::Table(t0 as usize)
            &&& lookup(g, field("os")) == ValueView::Table((t0 + 1) as usize)
            &&& lookup(g, field("path")) == ValueView::Table((t0 + 2) as usize)
            &&& lookup(g, field("Url")) == ValueView::Table((t0 + 3) as usize)
        }),
{
    lemma_names_differ();
    lemma_args_is_no_base_function();
    lemma_published_elsewhere(
        with_args(w.engine.tables[GLOBALS as int], w.instances.len()),
        w.engine.functions.len() as int,
        global_library(),
        field("args"),
    );
}

} // verus!
