//! Coroutines of the runtime as tasks of the host: the states a coroutine goes through
//! while the host drives it, and the rule that one coroutine runs at a time.

use vstd::prelude::*;
use crate::engine::views;
use crate::value::{Value, ValueView};

verus! {

/// The state of a coroutine.
#[derive(Debug)]
pub enum State {
    /// Made from a chunk and never resumed.
    Created,
    /// Waiting inside a native call; holds the token the call needs to go on.
    Suspended(usize),
    /// Executing.
    Running,
    /// The chunk returned; holds what it returned.
    Completed(Vec<Value>),
    /// The chunk raised an error; holds the message.
    Failed(String),
}

/// The content of a [`State`].
pub enum StateView {
    Created,
    Suspended(usize),
    Running,
    Completed(Seq<ValueView>),
    Failed(Seq<char>),
}

impl View for State {
    type V = StateView;

    open spec fn view(&self) -> StateView {
        match self {
            State::Created => StateView::Created,
            State::Suspended(t) => StateView::Suspended(*t),
            State::Running => StateView::Running,
            State::Completed(vs) => StateView::Completed(views(vs@)),
            State::Failed(m) => StateView::Failed(m@),
        }
    }
}

impl StateView {
    /// A coroutine that has completed or failed is dead.
    pub open spec fn dead(self) -> bool {
        self is Completed || self is Failed
    }
}

/// What the runtime does when a coroutine is resumed.
#[derive(Clone, Copy, PartialEq, Eq, Structural, Debug)]
pub enum Step {
    /// Start the chunk with the initial arguments.
    Start,
    /// Go on from the native call that suspended with this token, with the values that
    /// the awaited operation produced.
    Continue(usize),
}

/// A coroutine could not be driven as asked.
#[derive(Clone, Copy, PartialEq, Eq, Structural, Debug)]
pub enum ResumeError {
    /// No coroutine has this id.
    NoSuchThread,
    /// The coroutine has completed or failed.
    Dead,
    /// A coroutine is running already.
    Busy,
    /// No coroutine is running.
    NotRunning,
}

/// How a running chunk ended.
#[derive(Debug)]
pub enum Outcome {
    Returned(Vec<Value>),
    Raised(String),
}

impl Outcome {
    /// The state in which this outcome leaves the coroutine.
    pub open spec fn state(&self) -> StateView {
        match self {
            Outcome::Returned(vs) => StateView::Completed(views(vs@)),
            Outcome::Raised(m) => StateView::Failed(m@),
        }
    }
}

/// The permission to suspend the running coroutine. Only a native call that the scheduler
/// entered as yieldable holds one, and suspending uses it up. A native call that was given
/// none has no way to suspend: the distinction is one of types, not of a flag consulted at
/// run time.
pub struct Yieldable {
    thread: usize,
}

impl Yieldable {
    /// The coroutine this permission is for.
    pub closed spec fn thread(&self) -> usize {
        self.thread
    }
}

/// What resuming coroutine `id` gives when the coroutines are in `states`: a dead coroutine
/// is an error, and so is any resume while a coroutine is running.
pub open spec fn resume_of(states: Seq<StateView>, running: Option<usize>, id: int) -> Result<
    Step,
    ResumeError,
> {
    if !(0 <= id < states.len()) {
        Err(ResumeError::NoSuchThread)
    } else if states[id].dead() {
        Err(ResumeError::Dead)
    } else if running is Some {
        Err(ResumeError::Busy)
    } else {
        match states[id] {
            StateView::Suspended(token) => Ok(Step::Continue(token)),
            _ => Ok(Step::Start),
        }
    }
}

/// The coroutines after an attempt to resume coroutine `id`.
pub open spec fn after_resume(states: Seq<StateView>, running: Option<usize>, id: int) -> Seq<
    StateView,
> {
    if resume_of(states, running, id) is Ok {
        states.update(id, StateView::Running)
    } else {
        states
    }
}

/// What abandoning coroutine `id` gives: the token of the operation it was waiting for,
/// whose cleanup the host now has to run, or nothing where it was not waiting. A coroutine
/// that is running cannot be abandoned, and a dead one is an error as for a resume.
pub open spec fn abandon_of(states: Seq<StateView>, id: int) -> Result<Option<usize>, ResumeError> {
    if !(0 <= id < states.len()) {
        Err(ResumeError::NoSuchThread)
    } else if states[id].dead() {
        Err(ResumeError::Dead)
    } else {
        match states[id] {
            StateView::Running => Err(ResumeError::Busy),
            StateView::Suspended(token) => Ok(Some(token)),
            _ => Ok(None),
        }
    }
}

/// The message with which an abandoned coroutine fails.
pub open spec fn abandoned() -> Seq<char> {
    "abandoned"@
}

/// The coroutines after an attempt to abandon coroutine `id`.
pub open spec fn after_abandon(states: Seq<StateView>, id: int) -> Seq<StateView> {
    if abandon_of(states, id) is Ok {
        states.update(id, StateView::Failed(abandoned()))
    } else {
        states
    }
}

/// The coroutines of one runtime.
pub struct Scheduler {
    threads: Vec<State>,
    running: Option<usize>,
}

impl Scheduler {
    /// The state of every coroutine, by id.
    pub closed spec fn states(&self) -> Seq<StateView> {
        Seq::new(self.threads.len() as nat, |i: int| self.threads[i]@)
    }

    /// The coroutine that is running, if one is.
    pub closed spec fn running(&self) -> Option<usize> {
        self.running
    }

    /// At most one coroutine is running, and it is the one recorded as such.
    pub open spec fn wf(&self) -> bool {
        &&& forall|i: int|
            0 <= i < self.states().len() ==> (#[trigger] self.states()[i] is Running
                <==> self.running() == Some(i as usize))
        &&& self.running() matches Some(r) ==> r < self.states().len()
    }

    pub fn new() -> (r: Scheduler)
        ensures
            r.wf(),
            r.states() == Seq::<StateView>::empty(),
            r.running() == None::<usize>,
    {
        let r = Scheduler { threads: Vec::new(), running: None };
        r
    }

    /// Creates a coroutine from a compiled chunk and returns its id.
    pub fn spawn(&mut self) -> (id: usize)
        requires
            old(self).wf(),
        ensures
            final(self).wf(),
            id == old(self).states().len(),
            final(self).states() == old(self).states().push(StateView::Created),
            final(self).running() == old(self).running(),
    {
        let id = self.threads.len();
        self.threads.push(State::Created);
        assert(self.states() =~= old(self).states().push(StateView::Created));
        id
    }

    /// Resumes coroutine `id`. A coroutine that was created starts; one that is suspended
    /// goes on with the token it suspended with. A dead coroutine is refused, and so is
    /// any coroutine while one is running; a refusal changes nothing.
    pub fn resume(&mut self, id: usize) -> (r: Result<Step, ResumeError>)
        requires
            old(self).wf(),
        ensures
            final(self).wf(),
            r == resume_of(old(self).states(), old(self).running(), id as int),
            final(self).states() == after_resume(
                old(self).states(),
                old(self).running(),
                id as int,
            ),
            final(self).running() == if r is Ok {
                Some(id)
            } else {
                old(self).running()
            },
    {
        if id >= self.threads.len() {
            return Err(ResumeError::NoSuchThread);
        }
        let step = match &self.threads[id] {
            State::Completed(_) => {
                return Err(ResumeError::Dead);
            },
            State::Failed(_) => {
                return Err(ResumeError::Dead);
            },
            State::Suspended(token) => Step::Continue(*token),
            _ => Step::Start,
        };
        if self.running.is_some() {
            return Err(ResumeError::Busy);
        }
        self.threads.set(id, State::Running);
        self.running = Some(id);
        assert forall|i: int| 0 <= i < self.states().len() implies (
        #[trigger] self.states()[i] is Running <==> self.running() == Some(i as usize)) by {
            if i != id {
                assert(old(self).states()[i] is Running <==> old(self).running() == Some(
                    i as usize,
                ));
            }
        }
        Ok(step)
    }

    /// The permission to suspend, for a native call entered as yieldable. There is none
    /// while no coroutine is running.
    pub fn yieldable(&self) -> (r: Option<Yieldable>)
        requires
            self.wf(),
        ensures
            match r {
                Some(y) => self.running() == Some(y.thread()),
                None => self.running() is None,
            },
    {
        match self.running {
            Some(thread) => Some(Yieldable { thread }),
            None => None,
        }
    }

    /// Suspends the running coroutine on behalf of the native call that holds
    /// `permission`; `token` is what that call needs to go on. Refused, with nothing
    /// changed, when the coroutine the permission is for is not the one running.
    pub fn suspend(&mut self, permission: Yieldable, token: usize) -> (r: Result<
        (),
        ResumeError,
    >)
        requires
            old(self).wf(),
        ensures
            final(self).wf(),
            r is Ok <==> old(self).running() == Some(permission.thread()),
            r is Err ==> r == Err::<(), ResumeError>(ResumeError::NotRunning),
            final(self).states() == if r is Ok {
                old(self).states().update(
                    permission.thread() as int,
                    StateView::Suspended(token),
                )
            } else {
                old(self).states()
            },
            final(self).running() == if r is Ok {
                None
            } else {
                old(self).running()
            },
    {
        let id = permission.thread;
        match self.running {
            Some(r) => if r != id {
                return Err(ResumeError::NotRunning);
            },
            None => {
                return Err(ResumeError::NotRunning);
            },
        }
        self.put(id, State::Suspended(token));
        Ok(())
    }

    /// Replaces the state of the running coroutine `id` by `state`, which is not
    /// `Running`.
    fn put(&mut self, id: usize, state: State)
        requires
            old(self).wf(),
            old(self).running() == Some(id),
            !(state@ is Running),
        ensures
            final(self).wf(),
            final(self).states() == old(self).states().update(id as int, state@),
            final(self).running() is None,
    {
        let ghost s = state@;
        self.threads.set(id, state);
        self.running = None;
        assert forall|i: int| 0 <= i < self.states().len() implies (
        #[trigger] self.states()[i] is Running <==> self.running() == Some(i as usize)) by {
            if i != id {
                assert(old(self).states()[i] is Running <==> old(self).running() == Some(
                    i as usize,
                ));
            }
        }
    }

    /// Records how the running coroutine ended: it completes with what the chunk returned
    /// or fails with the error it raised. Refused, with nothing changed, when no coroutine
    /// is running.
    pub fn finish(&mut self, outcome: Outcome) -> (r: Result<usize, ResumeError>)
        requires
            old(self).wf(),
        ensures
            final(self).wf(),
            match old(self).running() {
                Some(id) => {
                    &&& r == Ok::<usize, ResumeError>(id)
                    &&& final(self).states() == old(self).states().update(
                        id as int,
                        outcome.state(),
                    )
                    &&& final(self).running() is None
                },
                None => {
                    &&& r == Err::<usize, ResumeError>(ResumeError::NotRunning)
                    &&& final(self).states() == old(self).states()
                    &&& final(self).running() is None
                },
            },
    {
        match self.running {
            Some(id) => {
                let state = match outcome {
                    Outcome::Returned(vs) => State::Completed(vs),
                    Outcome::Raised(m) => State::Failed(m),
                };
                self.put(id, state);
                Ok(id)
            },
            None => Err(ResumeError::NotRunning),
        }
    }

    /// Abandons coroutine `id`, which the host will not resume again: it fails. Where it
    /// was suspended, the token of the operation it was waiting for is handed out, once, so
    /// that the host runs that operation's cleanup before anything of the coroutine is
    /// finalized.
    pub fn abandon(&mut self, id: usize) -> (r: Result<Option<usize>, ResumeError>)
        requires
            old(self).wf(),
        ensures
            final(self).wf(),
            r == abandon_of(old(self).states(), id as int),
            final(self).states() == after_abandon(old(self).states(), id as int),
            final(self).running() == old(self).running(),
    {
        if id >= self.threads.len() {
            return Err(ResumeError::NoSuchThread);
        }
        let token = match &self.threads[id] {
            State::Completed(_) => {
                return Err(ResumeError::Dead);
            },
            State::Failed(_) => {
                return Err(ResumeError::Dead);
            },
            State::Running => {
                return Err(ResumeError::Busy);
            },
            State::Suspended(token) => Some(*token),
            State::Created => None,
        };
        self.threads.set(id, State::Failed("abandoned".to_string()));
        assert(self.states() =~= old(self).states().update(
            id as int,
            StateView::Failed(abandoned()),
        ));
        assert forall|i: int| 0 <= i < self.states().len() implies (
        #[trigger] self.states()[i] is Running <==> self.running() == Some(i as usize)) by {
            if i != id {
                assert(old(self).states()[i] is Running <==> old(self).running() == Some(
                    i as usize,
                ));
            } else {
                assert(old(self).states()[i] is Running <==> old(self).running() == Some(
                    i as usize,
                ));
            }
        }
        Ok(token)
    }

    /// Whether coroutine `id` has completed or failed.
    pub fn is_dead(&self, id: usize) -> (r: bool)
        requires
            id < self.states().len(),
        ensures
            r == self.states()[id as int].dead(),
    {
        match &self.threads[id] {
            State::Completed(_) => true,
            State::Failed(_) => true,
            _ => false,
        }
    }
}

/// A dead coroutine that is resumed again gives an error and stays as it is, however
/// often that is tried.
pub proof fn law_dead_stays_dead(states: Seq<StateView>, running: Option<usize>, id: int)
    requires
        0 <= id < states.len(),
        states[id].dead(),
    ensures
        resume_of(states, running, id) == Err::<Step, ResumeError>(ResumeError::Dead),
        after_resume(states, running, id) == states,
{
}

/// While one coroutine is running, no other can be resumed: resume and yield alternate
/// strictly.
pub proof fn law_one_running(states: Seq<StateView>, id: int, other: int)
    requires
        resume_of(states, None, id) is Ok,
    ensures
        resume_of(after_resume(states, None, id), Some(id as usize), other) is Err,
{
}

/// The life cycle is monotonic but for the cycle between suspended and running: a resume
/// never brings a dead coroutine back, and never turns any other coroutine's state.
pub proof fn law_resume_local(states: Seq<StateView>, running: Option<usize>, id: int, j: int)
    requires
        0 <= j < states.len(),
        j != id,
    ensures
        after_resume(states, running, id)[j] == states[j],
{
}

/// A suspended coroutine can be abandoned safely: the cleanup of what it was waiting for is
/// asked for exactly once, and afterwards the coroutine is dead to every resume and to
/// every further attempt to abandon it.
pub proof fn law_abandoned_once(states: Seq<StateView>, running: Option<usize>, id: int)
    requires
        abandon_of(states, id) is Ok,
    ensures
        abandon_of(after_abandon(states, id), id) == Err::<Option<usize>, ResumeError>(
            ResumeError::Dead,
        ),
        resume_of(after_abandon(states, id), running, id) == Err::<Step, ResumeError>(
            ResumeError::Dead,
        ),
{
}

} // verus!
