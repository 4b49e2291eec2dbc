use vstd::prelude::*;

use crate::error::InvokeError;

verus! {

/// What the host must do next to enter the process-wide isolate.
///
/// One isolate per process is a hard constraint: a second creation aborts the
/// process, even after tearing the first one down. The isolate is therefore
/// created on first use, never torn down, and threads other than the creating
/// one attach to it on demand.
#[derive(Debug, PartialEq, Eq)]
pub enum IsolateStep {
    /// No isolate exists yet: create one while the state is held, and report
    /// the outcome with [`IsolateState::created`].
    Create,
    /// The isolate exists: look up this thread's entry token in it and report
    /// the token with [`current_thread`].
    CurrentThread { isolate: usize },
    /// This thread is new to the isolate: attach it and report the outcome
    /// with [`attached`].
    Attach { isolate: usize },
    /// The thread is inside the isolate, with this entry token.
    Entered { thread: usize },
    /// The isolate could not be entered.
    Failed(InvokeError),
}

/// The process-wide isolate, once created.
pub struct IsolateState {
    isolate: Option<usize>,
}

impl View for IsolateState {
    type V = Option<usize>;

    closed spec fn view(&self) -> Option<usize> {
        self.isolate
    }
}

/// The first step towards the isolate from `state`.
pub open spec fn spec_begin(state: Option<usize>) -> IsolateStep {
    match state {
        None => IsolateStep::Create,
        Some(isolate) => IsolateStep::CurrentThread { isolate },
    }
}

/// The state and step after a creation that returned `rc`, `isolate` and
/// `thread` (the creating thread is already attached).
pub open spec fn spec_created(rc: i32, isolate: usize, thread: usize) -> (Option<usize>, IsolateStep) {
    if rc != 0 {
        (None, IsolateStep::Failed(InvokeError::IsolateInit(rc)))
    } else {
        (Some(isolate), IsolateStep::Entered { thread })
    }
}

/// The step after looking up this thread's token `thread` in `isolate`
/// (zero when the thread is not attached).
pub open spec fn spec_current_thread(isolate: usize, thread: usize) -> IsolateStep {
    if thread != 0 {
        IsolateStep::Entered { thread }
    } else {
        IsolateStep::Attach { isolate }
    }
}

/// The step after attaching this thread returned `rc` and `thread`.
pub open spec fn spec_attached(rc: i32, thread: usize) -> IsolateStep {
    if rc != 0 {
        IsolateStep::Failed(InvokeError::IsolateInit(rc))
    } else {
        IsolateStep::Entered { thread }
    }
}

impl IsolateState {
    /// The state of a process that has not created its isolate yet.
    pub fn new() -> (s: IsolateState)
        ensures
            s@ is None,
    {
        IsolateState { isolate: None }
    }

    /// The isolate, once created.
    pub fn isolate(&self) -> (res: Option<usize>)
        ensures
            res == self@,
    {
        self.isolate
    }

    /// The first step towards the isolate.
    pub fn begin(&self) -> (step: IsolateStep)
        ensures
            step == spec_begin(self@),
    {
        match self.isolate {
            None => IsolateStep::Create,
            Some(isolate) => IsolateStep::CurrentThread { isolate },
        }
    }

    /// Record the outcome of creating the isolate. Only a process without an
    /// isolate creates one; a failed creation leaves it without.
    pub fn created(&mut self, rc: i32, isolate: usize, thread: usize) -> (step: IsolateStep)
        requires
            old(self)@ is None,
        ensures
            (final(self)@, step) == spec_created(rc, isolate, thread),
            rc != 0 ==> step == IsolateStep::Failed(InvokeError::IsolateInit(rc)) && final(self)@ is None,
            rc == 0 ==> step == (IsolateStep::Entered { thread }) && final(self)@ == Some(isolate),
    {
        proof {
            lemma_creation_outcome(rc, isolate, thread);
        }
        if rc != 0 {
            IsolateStep::Failed(InvokeError::IsolateInit(rc))
        } else {
            self.isolate = Some(isolate);
            IsolateStep::Entered { thread }
        }
    }
}

/// The step after looking up this thread's entry token `thread` in the
/// existing `isolate`: a non-null token enters, a null one asks to attach.
pub fn current_thread(isolate: usize, thread: usize) -> (step: IsolateStep)
    ensures
        step == spec_current_thread(isolate, thread),
        thread != 0 ==> step == (IsolateStep::Entered { thread }),
        thread == 0 ==> step == (IsolateStep::Attach { isolate }),
{
    proof {
        lemma_attach_outcome(0, isolate, thread);
    }
    if thread != 0 {
        IsolateStep::Entered { thread }
    } else {
        IsolateStep::Attach { isolate }
    }
}

/// The step after attaching this thread returned `rc` and the token `thread`.
pub fn attached(rc: i32, thread: usize) -> (step: IsolateStep)
    ensures
        step == spec_attached(rc, thread),
        rc != 0 ==> step == IsolateStep::Failed(InvokeError::IsolateInit(rc)),
        rc == 0 ==> step == (IsolateStep::Entered { thread }),
{
    proof {
        lemma_attach_outcome(rc, 0, thread);
    }
    if rc != 0 {
        IsolateStep::Failed(InvokeError::IsolateInit(rc))
    } else {
        IsolateStep::Entered { thread }
    }
}

/// A creation succeeds only with code zero: every nonzero code fails with
/// that code and leaves the process without an isolate; code zero records the
/// created isolate and enters with the creating thread's token.
pub proof fn lemma_creation_outcome(rc: i32, isolate: usize, thread: usize)
    ensures
        rc != 0 ==> spec_created(rc, isolate, thread) == (
            None::<usize>,
            IsolateStep::Failed(InvokeError::IsolateInit(rc)),
        ),
        rc == 0 ==> spec_created(rc, isolate, thread) == (Some(isolate), IsolateStep::Entered {
            thread,
        }),
        spec_created(rc, isolate, thread).1 is Entered ==> rc == 0,
{
}

/// Attaching succeeds only with code zero: every nonzero code fails with that
/// code, and code zero enters with the attached thread's token. Looking up a
/// thread enters exactly when its token is non-null, and otherwise asks to
/// attach to the same isolate.
pub proof fn lemma_attach_outcome(rc: i32, isolate: usize, thread: usize)
    ensures
        rc != 0 ==> spec_attached(rc, thread) == IsolateStep::Failed(InvokeError::IsolateInit(rc)),
        rc == 0 ==> spec_attached(rc, thread) == (IsolateStep::Entered { thread }),
        spec_attached(rc, thread) is Entered ==> rc == 0,
        thread != 0 ==> spec_current_thread(isolate, thread) == (IsolateStep::Entered { thread }),
        thread == 0 ==> spec_current_thread(isolate, thread) == (IsolateStep::Attach { isolate }),
{
}

/// One isolate per process: after a successful creation every later entry
/// goes to that same isolate and never creates another, while a failed
/// creation leaves the process without an isolate, so the next entry tries to
/// create one again.
pub proof fn lemma_single_isolate(rc: i32, isolate: usize, thread: usize)
    ensures
        rc == 0 ==> spec_begin(spec_created(rc, isolate, thread).0) == (IsolateStep::CurrentThread {
            isolate,
        }),
        rc != 0 ==> spec_begin(spec_created(rc, isolate, thread).0) == IsolateStep::Create,
        forall|existing: usize| spec_begin(Some(existing)) != IsolateStep::Create,
{
}

} // verus!
