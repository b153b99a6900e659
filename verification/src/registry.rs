//! Host types as classes of script objects: registration, instances and guarded access.

use vstd::prelude::*;
use vstd::string::StringExecFns;
use crate::engine::{reserved, Engine, MAX_STACK};
use crate::error::ErrorKind;
use crate::table::{lookup, Key, KeyView, Table};
use crate::text::same_text;
use crate::value::{Value, ValueView};

verus! {

/// Registration was refused.
#[derive(Clone, Copy, PartialEq, Eq, Structural, Debug)]
pub enum RegistryError {
    /// A class of that name is registered already.
    AlreadyRegistered,
}

impl RegistryError {
    /// A second registration of a class is a defect of the binding layer itself.
    pub fn kind(self) -> (r: ErrorKind)
        ensures
            r == ErrorKind::Protocol,
    {
        ErrorKind::Protocol
    }
}

/// Access to an instance was refused.
#[derive(Clone, Copy, PartialEq, Eq, Structural, Debug)]
pub enum AccessError {
    /// The handle names no instance.
    NotAnInstance,
    /// The instance belongs to class `actual`, not to `expected`.
    ClassMismatch { expected: usize, actual: usize },
    /// A call on the instance is still active.
    ConcurrentAccess,
    /// The instance has been finalized.
    Finalized,
}

impl AccessError {
    /// The class of failure this error falls under.
    pub fn kind(self) -> (r: ErrorKind)
        ensures
            r == (match self {
                AccessError::NotAnInstance => ErrorKind::Argument,
                AccessError::ClassMismatch { .. } => ErrorKind::ClassMismatch,
                AccessError::ConcurrentAccess => ErrorKind::Runtime,
                AccessError::Finalized => ErrorKind::Runtime,
            }),
    {
        match self {
            AccessError::NotAnInstance => ErrorKind::Argument,
            AccessError::ClassMismatch { .. } => ErrorKind::ClassMismatch,
            AccessError::ConcurrentAccess => ErrorKind::Runtime,
            AccessError::Finalized => ErrorKind::Runtime,
        }
    }
}

/// What a name resolves to on a class.
#[derive(Clone, Copy, PartialEq, Eq, Structural, Debug)]
pub enum Member {
    /// A method, implemented by the function behind the handle.
    Method(usize),
    /// A property; `writable` tells a read-write property from a read-only one.
    Property { writable: bool },
    /// The class has no member of that name.
    Missing,
}

/// The members a class declares.
pub struct ClassView {
    pub methods: Map<KeyView, ValueView>,
    pub properties: Map<KeyView, ValueView>,
    pub finalizer: bool,
}

impl ClassView {
    /// A class without members.
    pub open spec fn empty() -> ClassView {
        ClassView { methods: Map::empty(), properties: Map::empty(), finalizer: false }
    }

    /// What `name` resolves to: a method before a property.
    pub open spec fn member(self, name: Seq<u8>) -> Member {
        match lookup(self.methods, KeyView::Str(name)) {
            ValueView::Function(f) => Member::Method(f),
            _ => match lookup(self.properties, KeyView::Str(name)) {
                ValueView::Boolean(w) => Member::Property { writable: w },
                _ => Member::Missing,
            },
        }
    }
}

/// Collects the members of a class while its setup runs.
pub struct ClassBuilder {
    methods: Table,
    properties: Table,
    finalizer: bool,
}

impl ClassBuilder {
    #[verifier::type_invariant]
    spec fn inv(self) -> bool {
        self.methods.wf() && self.properties.wf()
    }

    /// What has been declared so far.
    pub closed spec fn view(&self) -> ClassView {
        ClassView {
            methods: self.methods@,
            properties: self.properties@,
            finalizer: self.finalizer,
        }
    }

    fn new() -> (r: ClassBuilder)
        ensures
            r@ == ClassView::empty(),
    {
        ClassBuilder { methods: Table::new(), properties: Table::new(), finalizer: false }
    }

    /// Declares the method `name`, implemented by function `f`. A later declaration of
    /// the same name replaces an earlier one.
    pub fn method(self, name: &[u8], f: usize) -> (r: ClassBuilder)
        ensures
            r@ == (ClassView {
                methods: self@.methods.insert(KeyView::Str(name@), ValueView::Function(f)),
                ..self@
            }),
    {
        proof {
            use_type_invariant(&self);
        }
        let ClassBuilder { mut methods, properties, finalizer } = self;
        methods.set(Key::Str(crate::value::copy_bytes(name)), Value::Function(f));
        ClassBuilder { methods, properties, finalizer }
    }

    /// Declares the property `name`, read-write when `writable` is set and read-only
    /// otherwise.
    pub fn property(self, name: &[u8], writable: bool) -> (r: ClassBuilder)
        ensures
            r@ == (ClassView {
                properties: self@.properties.insert(
                    KeyView::Str(name@),
                    ValueView::Boolean(writable),
                ),
                ..self@
            }),
    {
        proof {
            use_type_invariant(&self);
        }
        let ClassBuilder { methods, mut properties, finalizer } = self;
        properties.set(Key::Str(crate::value::copy_bytes(name)), Value::Boolean(writable));
        ClassBuilder { methods, properties, finalizer }
    }

    /// Declares that instances have a finalizer.
    pub fn finalizer(self) -> (r: ClassBuilder)
        ensures
            r@ == (ClassView { finalizer: true, ..self@ }),
    {
        proof {
            use_type_invariant(&self);
        }
        let ClassBuilder { methods, properties, finalizer: _ } = self;
        ClassBuilder { methods, properties, finalizer: true }
    }
}

/// A registered class.
struct Class {
    name: String,
    members: ClassBuilder,
}

/// A host value boxed into memory of the runtime.
#[derive(Clone, Copy, PartialEq, Eq, Structural, Debug)]
pub struct Instance {
    /// The class the instance is tagged with.
    pub class: usize,
    /// Names the boxed host value.
    pub payload: usize,
    /// Whether a call on the instance is active.
    pub borrowed: bool,
    /// Whether the boxed value has been torn down.
    pub finalized: bool,
}

/// Whether a class called `name` is among `names`.
pub open spec fn has_class(names: Seq<Seq<char>>, name: Seq<char>) -> bool {
    names.contains(name)
}

/// Registration of `name` on a registry whose classes are `names`: refused when the name is
/// taken, otherwise the class is added behind the others.
pub open spec fn register_of(names: Seq<Seq<char>>, name: Seq<char>) -> Result<
    Seq<Seq<char>>,
    RegistryError,
> {
    if has_class(names, name) {
        Err(RegistryError::AlreadyRegistered)
    } else {
        Ok(names.push(name))
    }
}

/// What an attempt to take instance `h` of `insts` as an instance of `class` gives: the
/// payload, or the reason for the refusal.
pub open spec fn borrow_of(insts: Seq<Instance>, h: int, class: usize) -> Result<
    usize,
    AccessError,
> {
    if !(0 <= h < insts.len()) {
        Err(AccessError::NotAnInstance)
    } else if insts[h].finalized {
        Err(AccessError::Finalized)
    } else if insts[h].class != class {
        Err(AccessError::ClassMismatch { expected: class, actual: insts[h].class })
    } else if insts[h].borrowed {
        Err(AccessError::ConcurrentAccess)
    } else {
        Ok(insts[h].payload)
    }
}

/// The instances after an attempt to take instance `h` as an instance of `class`: a
/// successful attempt marks the instance as in use, a refused one changes nothing.
pub open spec fn after_borrow(insts: Seq<Instance>, h: int, class: usize) -> Seq<Instance> {
    if borrow_of(insts, h, class) is Ok {
        insts.update(h, Instance { borrowed: true, ..insts[h] })
    } else {
        insts
    }
}

/// Whether instance `h` of `insts` can be finalized now: it exists, has not been finalized
/// and no call on it is active.
pub open spec fn finalizable(insts: Seq<Instance>, h: int) -> bool {
    0 <= h < insts.len() && !insts[h].finalized && !insts[h].borrowed
}

/// The instances after an attempt to finalize instance `h`.
pub open spec fn after_finalize(insts: Seq<Instance>, h: int) -> Seq<Instance> {
    if finalizable(insts, h) {
        insts.update(h, Instance { finalized: true, ..insts[h] })
    } else {
        insts
    }
}

/// The payloads of the instances in `insts` that were never finalized, latest created
/// first.
pub open spec fn unfinalized(insts: Seq<Instance>) -> Seq<usize>
    decreases insts.len(),
{
    if insts.len() == 0 {
        Seq::empty()
    } else if insts.last().finalized {
        unfinalized(insts.drop_last())
    } else {
        seq![insts.last().payload] + unfinalized(insts.drop_last())
    }
}

/// The classes registered with a runtime and the instances created of them.
pub struct Registry {
    classes: Vec<Class>,
    instances: Vec<Instance>,
}

impl Registry {
    /// The names of the classes, by class id.
    pub closed spec fn names(&self) -> Seq<Seq<char>> {
        Seq::new(self.classes.len() as nat, |i: int| self.classes[i].name@)
    }

    /// The members of the classes, by class id.
    pub closed spec fn classes(&self) -> Seq<ClassView> {
        Seq::new(self.classes.len() as nat, |i: int| self.classes[i].members@)
    }

    /// The instances, by handle.
    pub closed spec fn instances(&self) -> Seq<Instance> {
        self.instances@
    }

    /// Handles and class ids are machine integers.
    pub proof fn lemma_bounds(&self)
        ensures
            self.names().len() <= usize::MAX,
            self.names().len() == self.classes().len(),
            self.instances().len() <= usize::MAX,
    {
        assert(self.instances.len() == self.instances@.len());
    }

    /// A registry without classes.
    pub fn new() -> (r: Registry)
        ensures
            r.names() == Seq::<Seq<char>>::empty(),
            r.classes() == Seq::<ClassView>::empty(),
            r.instances() == Seq::<Instance>::empty(),
    {
        let r = Registry { classes: Vec::new(), instances: Vec::new() };
        r
    }

    /// The id of the class called `name`.
    pub fn class_id(&self, name: &str) -> (r: Option<usize>)
        ensures
            match r {
                Some(id) => id < self.names().len() && self.names()[id as int] == name@,
                None => !has_class(self.names(), name@),
            },
    {
        let mut i: usize = 0;
        while i < self.classes.len()
            invariant
                i <= self.classes.len(),
                forall|j: int| 0 <= j < i ==> self.names()[j] != name@,
            decreases self.classes.len() - i,
        {
            if same_text(self.classes[i].name.as_str(), name) {
                return Some(i);
            }
            i += 1;
        }
        None
    }

    /// Registers a class under `name` and returns its id. A name that is taken is
    /// refused, and then `setup` does not run and nothing changes. Otherwise `setup` runs
    /// once, on a builder without members, and what it returns are the members of the
    /// class.
    pub fn register<F: FnOnce(ClassBuilder) -> ClassBuilder>(&mut self, name: &str, setup: F) -> (r:
        Result<usize, RegistryError>)
        requires
            forall|b: ClassBuilder| b@ == ClassView::empty() ==> call_requires(setup, (b,)),
        ensures
            match register_of(old(self).names(), name@) {
                Ok(names) => {
                    &&& r == Ok::<usize, RegistryError>(old(self).names().len() as usize)
                    &&& final(self).names() == names
                    &&& exists|b: ClassBuilder, done: ClassBuilder|
                        {
                            &&& b@ == ClassView::empty()
                            &&& call_ensures(setup, (b,), done)
                            &&& final(self).classes() == old(self).classes().push(done@)
                        }
                },
                Err(e) => {
                    &&& r == Err::<usize, RegistryError>(e)
                    &&& final(self).names() == old(self).names()
                    &&& final(self).classes() == old(self).classes()
                },
            },
            final(self).instances() == old(self).instances(),
    {
        if self.class_id(name).is_some() {
            return Err(RegistryError::AlreadyRegistered);
        }
        let id = self.classes.len();
        let b = ClassBuilder::new();
        let ghost b0 = b;
        let done = setup(b);
        let ghost d0 = done;
        self.classes.push(Class { name: String::from_str(name), members: done });
        assert(call_ensures(setup, (b0,), d0));
        Ok(id)
    }

    /// What `name` resolves to on class `class`.
    pub fn member(&self, class: usize, name: &[u8]) -> (r: Member)
        requires
            class < self.classes().len(),
        ensures
            r == self.classes()[class as int].member(name@),
    {
        let c = &self.classes[class].members;
        proof {
            use_type_invariant(c);
        }
        let key = Key::Str(crate::value::copy_bytes(name));
        match c.methods.get(&key) {
            Value::Function(f) => Member::Method(f),
            _ => match c.properties.get(&key) {
                Value::Boolean(w) => Member::Property { writable: w },
                _ => Member::Missing,
            },
        }
    }

    /// Boxes the host value that `payload` names as an instance of `class` and pushes a
    /// reference to it.
    pub fn push_userdata(&mut self, engine: &mut Engine, class: usize, payload: usize)
        requires
            class < old(self).names().len(),
            old(engine).wf(),
            old(engine).depth() < MAX_STACK,
        ensures
            final(self).names() == old(self).names(),
            final(self).classes() == old(self).classes(),
            final(self).instances() == old(self).instances().push(
                Instance { class, payload, borrowed: false, finalized: false },
            ),
            final(engine).wf(),
            final(engine).stack() == old(engine).stack().push(
                ValueView::UserData(old(self).instances().len() as usize),
            ),
            final(engine).room() == reserved(old(engine).room(), 1) - 1,
            final(engine).tables() == old(engine).tables(),
            final(engine).functions() == old(engine).functions(),
    {
        let h = self.instances.len();
        self.instances.push(Instance { class, payload, borrowed: false, finalized: false });
        engine.push_value(Value::UserData(h));
    }

    /// Takes instance `h` for a call that expects an instance of `class`. The class tag is
    /// checked before anything is handed out, and an instance on which a call is still
    /// active is refused rather than handed out twice.
    pub fn borrow(&mut self, h: usize, class: usize) -> (r: Result<usize, AccessError>)
        ensures
            r == borrow_of(old(self).instances(), h as int, class),
            final(self).instances() == after_borrow(old(self).instances(), h as int, class),
            final(self).names() == old(self).names(),
            final(self).classes() == old(self).classes(),
    {
        if h >= self.instances.len() {
            return Err(AccessError::NotAnInstance);
        }
        let inst = self.instances[h];
        if inst.finalized {
            Err(AccessError::Finalized)
        } else if inst.class != class {
            Err(AccessError::ClassMismatch { expected: class, actual: inst.class })
        } else if inst.borrowed {
            Err(AccessError::ConcurrentAccess)
        } else {
            self.instances.set(h, Instance { borrowed: true, ..inst });
            Ok(inst.payload)
        }
    }

    /// Ends the call that took instance `h`. A handle that names no instance changes
    /// nothing.
    pub fn release(&mut self, h: usize)
        ensures
            final(self).instances() == if h < old(self).instances().len() {
                old(self).instances().update(
                    h as int,
                    Instance { borrowed: false, ..old(self).instances()[h as int] },
                )
            } else {
                old(self).instances()
            },
            final(self).names() == old(self).names(),
            final(self).classes() == old(self).classes(),
    {
        if h < self.instances.len() {
            let inst = self.instances[h];
            self.instances.set(h, Instance { borrowed: false, ..inst });
        }
    }

    /// Finalizes instance `h` when the collector reclaims it. Returns the payload to tear
    /// down, or nothing when the instance does not exist, is finalized already or is in
    /// use.
    pub fn finalize(&mut self, h: usize) -> (r: Option<usize>)
        ensures
            r == if finalizable(old(self).instances(), h as int) {
                Some(old(self).instances()[h as int].payload)
            } else {
                None
            },
            final(self).instances() == after_finalize(old(self).instances(), h as int),
            final(self).names() == old(self).names(),
            final(self).classes() == old(self).classes(),
    {
        if h >= self.instances.len() {
            return None;
        }
        let inst = self.instances[h];
        if inst.finalized || inst.borrowed {
            None
        } else {
            self.instances.set(h, Instance { finalized: true, ..inst });
            Some(inst.payload)
        }
    }

    /// Tears the registry down with its runtime. Returns the payload of each instance that
    /// was never finalized, once each, latest created first.
    pub fn close(self) -> (r: Vec<usize>)
        ensures
            r@ == unfinalized(self.instances()),
    {
        let mut out: Vec<usize> = Vec::new();
        let mut i: usize = self.instances.len();
        let ghost all = self.instances@;
        assert(all.take(i as int) == all);
        while i > 0
            invariant
                all == self.instances@,
                i <= all.len(),
                out@ + unfinalized(all.take(i as int)) == unfinalized(all),
            decreases i,
        {
            let ghost cur = all.take(i as int);
            assert(cur.drop_last() == all.take(i - 1));
            i -= 1;
            let inst = self.instances[i];
            if !inst.finalized {
                assert(out@.push(inst.payload) + unfinalized(all.take(i as int)) == out@ + (
                seq![inst.payload] + unfinalized(all.take(i as int))));
                out.push(inst.payload);
            }
        }
        out
    }
}

/// Registering the same class name twice fails: once a registration of `name` has
/// succeeded, a second one is refused, whatever was registered in between.
pub proof fn law_register_twice(names: Seq<Seq<char>>, name: Seq<char>, later: Seq<Seq<char>>)
    requires
        register_of(names, name) is Ok,
    ensures
        register_of(register_of(names, name)->Ok_0 + later, name) == Err::<
            Seq<Seq<char>>,
            RegistryError,
        >(RegistryError::AlreadyRegistered),
{
    let after = names.push(name) + later;
    assert(after[names.len() as int] == name);
}

/// A call on an instance that re-enters the same instance while the first call is still
/// active fails with a concurrent-access error, and the instance stays as it was.
pub proof fn law_reentry_refused(insts: Seq<Instance>, h: int, class: usize)
    requires
        borrow_of(insts, h, class) is Ok,
    ensures
        borrow_of(after_borrow(insts, h, class), h, class) == Err::<usize, AccessError>(
            AccessError::ConcurrentAccess,
        ),
        after_borrow(after_borrow(insts, h, class), h, class) == after_borrow(insts, h, class),
{
}

/// An instance accessed as the wrong class is refused, never handed out.
pub proof fn law_class_checked(insts: Seq<Instance>, h: int, class: usize)
    requires
        0 <= h < insts.len(),
        insts[h].class != class,
    ensures
        borrow_of(insts, h, class) is Err,
        after_borrow(insts, h, class) == insts,
{
}

/// An instance is finalized at most once: after a finalization that handed out the payload,
/// another one hands out nothing, and teardown does not name the payload again.
pub proof fn law_finalized_once(insts: Seq<Instance>, h: int)
    requires
        finalizable(insts, h),
    ensures
        !finalizable(after_finalize(insts, h), h),
        after_finalize(after_finalize(insts, h), h) == after_finalize(insts, h),
        borrow_of(after_finalize(insts, h), h, insts[h].class) == Err::<usize, AccessError>(
            AccessError::Finalized,
        ),
{
}

} // verus!
