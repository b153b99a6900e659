//! Composing registration units into a runtime, each opened once and in the order the
//! host chooses.

use vstd::prelude::*;
use vstd::string::StringSliceAdditionalSpecFns;
use crate::engine::{field, reserved, Engine, EngineView, GLOBALS, MAX_STACK};
use crate::error::LuaError;
use crate::registry::{ClassView, Instance, Registry};
use crate::table::{stored, Key, KeyView, Table};
use crate::value::{Value, ValueView};

verus! {

/// Everything a module may read or extend when it opens.
pub struct World {
    pub engine: EngineView,
    /// The names of the registered classes, by class id.
    pub classes: Seq<Seq<char>>,
    /// The members of the registered classes, by class id.
    pub members: Seq<ClassView>,
    pub instances: Seq<Instance>,
}

/// The world made of `engine` and `registry`.
pub open spec fn world(engine: &Engine, registry: &Registry) -> World {
    World {
        engine: engine@,
        classes: registry.names(),
        members: registry.classes(),
        instances: registry.instances(),
    }
}

/// The content of what an open operation returned: the module's instance, or the
/// formatted message of its error.
pub open spec fn opening(r: Result<Value, LuaError>) -> Result<ValueView, Seq<char>> {
    match r {
        Ok(v) => Ok(v@),
        Err(e) => Err(e.formatted()),
    }
}

/// The stack slots a module may occupy while it opens.
pub const OPEN_SLOTS: usize = 2;

/// A registration unit: a name and an open operation.
pub trait Module: Sized {
    /// Preferred name of the module, which is also the name of its global variable.
    spec fn spec_name(&self) -> Seq<u8>;

    /// What opening this module in the world `before` may leave: the world `after` and
    /// the instance or error `r`.
    spec fn opened(&self, before: World, after: World, r: Result<ValueView, Seq<char>>) -> bool;

    /// Preferred name of the module.
    fn name(&self) -> (r: &'static str)
        ensures
            r.spec_bytes() == self.spec_name(),
    ;

    /// Opens this module. The instance it returns is what later modules may read or
    /// extend; `nil` means the module offers none. The stack is left as it was found.
    fn open(self, engine: &mut Engine, classes: &mut Registry) -> (r: Result<Value, LuaError>)
        requires
            old(engine).wf(),
            old(engine).depth() + OPEN_SLOTS <= MAX_STACK,
        ensures
            final(engine).wf(),
            final(engine).stack() == old(engine).stack(),
            self.opened(
                world(old(engine), old(classes)),
                world(final(engine), final(classes)),
                opening(r),
            ),
    ;
}

/// A module could not be used.
#[derive(Debug)]
pub enum ModuleError {
    /// A module with the same name already exists.
    Exists,
    /// The module's open operation failed.
    Open(LuaError),
}

/// The engine content `e` with the global variable `name` bound to `v`, for which one slot
/// was reserved.
pub open spec fn with_global(e: EngineView, name: Seq<u8>, v: ValueView) -> EngineView {
    EngineView {
        room: reserved(e.room, 1),
        tables: e.tables.update(
            GLOBALS as int,
            stored(e.tables[GLOBALS as int], KeyView::Str(name), v),
        ),
        ..e
    }
}

/// The modules that were opened on a runtime, by name.
pub struct Modules {
    loaded: Table,
}

impl Modules {
    /// The record of modules is a well-formed table.
    pub closed spec fn wf(&self) -> bool {
        self.loaded.wf()
    }

    /// The instance of every module in use, by name.
    pub closed spec fn loaded(&self) -> Map<KeyView, ValueView> {
        self.loaded@
    }

    pub fn new() -> (r: Modules)
        ensures
            r.wf(),
            r.loaded() == Map::<KeyView, ValueView>::empty(),
    {
        Modules { loaded: Table::new() }
    }

    /// Whether a module is in use under `name`.
    pub fn has(&self, name: &str) -> (r: bool)
        requires
            self.wf(),
        ensures
            r == self.loaded().contains_key(field(name)),
    {
        self.loaded.contains(&Key::named(name))
    }

    /// Opens `module` under `name`, or under its preferred name where none is given.
    ///
    /// A name that is in use is refused and the module is not opened. Otherwise the
    /// module opens, once. If that fails, the error is handed on. If it gives an
    /// instance, the instance is recorded under the name and, with `global` set, bound to
    /// the global variable of that name, replacing what was bound before. A module whose
    /// instance is `nil` is not recorded.
    pub fn use_module<M: Module>(
        &mut self,
        engine: &mut Engine,
        classes: &mut Registry,
        name: Option<&str>,
        global: bool,
        module: M,
    ) -> (r: Result<(), ModuleError>)
        requires
            old(self).wf(),
            old(engine).wf(),
            old(engine).depth() + OPEN_SLOTS <= MAX_STACK,
        ensures
            final(self).wf(),
            final(engine).wf(),
            final(engine).stack() == old(engine).stack(),
            ({
                let n = match name {
                    Some(n) => n.spec_bytes(),
                    None => module.spec_name(),
                };
                let k = KeyView::Str(n);
                if old(self).loaded().contains_key(k) {
                    &&& r matches Err(ModuleError::Exists)
                    &&& world(final(engine), final(classes)) == world(old(engine), old(classes))
                    &&& final(self).loaded() == old(self).loaded()
                } else {
                    exists|mid: World, res: Result<ValueView, Seq<char>>|
                        {
                            &&& module.opened(world(old(engine), old(classes)), mid, res)
                            &&& match res {
                                Ok(inst) => {
                                    &&& r is Ok
                                    &&& final(self).loaded() == stored(old(self).loaded(), k, inst)
                                    &&& world(final(engine), final(classes)) == if global && !(inst
                                        is Nil) {
                                        World { engine: with_global(mid.engine, n, inst), ..mid }
                                    } else {
                                        mid
                                    }
                                },
                                Err(m) => {
                                    &&& r matches Err(ModuleError::Open(e)) && e.formatted() == m
                                    &&& final(self).loaded() == old(self).loaded()
                                    &&& world(final(engine), final(classes)) == mid
                                },
                            }
                        }
                }
            }),
    {
        let name: &str = match name {
            Some(n) => n,
            None => module.name(),
        };
        if self.loaded.contains(&Key::named(name)) {
            return Err(ModuleError::Exists);
        }
        let opened = module.open(engine, classes);
        match opened {
            Ok(inst) => {
                if inst.is_nil() {
                    return Ok(());
                }
                self.loaded.set(Key::named(name), inst.dup());
                if global {
                    engine.push_value(inst);
                    engine.set_global(name);
                    assert(engine.stack() =~= old(engine).stack());
                }
                Ok(())
            },
            Err(e) => Err(ModuleError::Open(e)),
        }
    }
}

} // verus!
