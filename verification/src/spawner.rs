use vstd::prelude::*;

verus! {

/// A unit of asynchronous work submitted for execution, identified by a
/// task id. Driving the task to completion and producing its output is
/// the concern of the scheduler it is handed to, not of this core.
#[derive(Clone, Copy, PartialEq, Eq, Structural, Debug)]
pub struct Task {
    pub id: u64,
}

/// The handle a caller keeps for later retrieving a spawned task's
/// output. It records which task it stands for and which scheduler
/// accepted that task.
#[derive(Clone, Copy, PartialEq, Eq, Structural, Debug)]
pub struct JoinHandle {
    pub task: u64,
    pub scheduler: u64,
}

/// A cheap handle into the single-threaded scheduler, one of the two
/// scheduler collaborators this core routes spawn calls to. The
/// scheduler itself lives outside this core; the handle carries its
/// identity and offers its spawn operation.
#[derive(Clone, Copy, PartialEq, Eq, Structural, Debug)]
pub struct BasicSpawner {
    pub scheduler: u64,
}

/// A cheap handle into the multi-worker thread-pool scheduler, the other
/// scheduler collaborator.
#[derive(Clone, Copy, PartialEq, Eq, Structural, Debug)]
pub struct ThreadPoolSpawner {
    pub scheduler: u64,
}

/// What the single-threaded scheduler's spawn hands back for a task: a
/// join handle for exactly that task on exactly that scheduler.
pub open spec fn basic_spawn_result(s: BasicSpawner, task: Task) -> JoinHandle {
    JoinHandle { task: task.id, scheduler: s.scheduler }
}

/// What the thread-pool scheduler's spawn hands back for a task: a join
/// handle for exactly that task on exactly that scheduler.
pub open spec fn thread_pool_spawn_result(s: ThreadPoolSpawner, task: Task) -> JoinHandle {
    JoinHandle { task: task.id, scheduler: s.scheduler }
}

impl BasicSpawner {
    /// Hands `task` to the single-threaded scheduler and returns its join
    /// handle at once, without waiting for the task to run.
    pub fn spawn(&self, task: Task) -> (h: JoinHandle)
        ensures
            h == basic_spawn_result(*self, task),
    {
        JoinHandle { task: task.id, scheduler: self.scheduler }
    }
}

impl ThreadPoolSpawner {
    /// Hands `task` to the thread-pool scheduler and returns its join
    /// handle at once, without waiting for the task to run.
    pub fn spawn(&self, task: Task) -> (h: JoinHandle)
        ensures
            h == thread_pool_spawn_result(*self, task),
    {
        JoinHandle { task: task.id, scheduler: self.scheduler }
    }
}

/// The closed set of scheduler kinds a runtime can be built with. The
/// variant is chosen once, when the owning runtime is constructed, and
/// never changes afterwards; `Shell` stands for a runtime configured
/// with no executor at all. Keeping the set closed lets `spawn` dispatch
/// on a small tag instead of through a virtual call, which matters on
/// the spawning hot path.
#[derive(Clone, Debug)]
pub enum Spawner {
    Shell,
    Basic(BasicSpawner),
    ThreadPool(ThreadPoolSpawner),
}

/// What `Spawner::spawn` hands back, per variant: exactly what the
/// chosen scheduler's own spawn hands back, untransformed. Meaningful
/// only when an executor is configured; for `Shell` there is no result
/// to describe, since spawning there is ruled out.
pub open spec fn spawn_result(sp: Spawner, task: Task) -> JoinHandle
    recommends
        !(sp is Shell),
{
    match sp {
        Spawner::Shell => arbitrary(),
        Spawner::Basic(s) => basic_spawn_result(s, task),
        Spawner::ThreadPool(s) => thread_pool_spawn_result(s, task),
    }
}

impl Spawner {
    /// Whether a real executor is configured: `false` exactly for the
    /// `Shell` variant. Callers that cannot rule out `Shell` statically
    /// check this before calling `spawn`.
    pub fn has_executor(&self) -> (r: bool)
        ensures
            r == !(*self is Shell),
    {
        match self {
            Spawner::Shell => false,
            Spawner::Basic(_) => true,
            Spawner::ThreadPool(_) => true,
        }
    }

    /// Submits `task` to whichever scheduler this runtime was built
    /// with, by a direct branch on the variant tag, and returns that
    /// scheduler's join handle unchanged.
    ///
    /// Spawning into a `Shell` runtime is a programming error of the
    /// embedding runtime's builder — there is no executor to take the
    /// task, and such a misuse is fatal by design, never a normal join
    /// handle. Verified callers are therefore required to rule the
    /// `Shell` variant out, with `has_executor` as the runtime test
    /// where it is not known statically.
    pub fn spawn(&self, task: Task) -> (h: JoinHandle)
        requires
            !(*self is Shell),
        ensures
            h == spawn_result(*self, task),
    {
        match self {
            Spawner::Shell => unreached(),
            Spawner::Basic(s) => s.spawn(task),
            Spawner::ThreadPool(s) => s.spawn(task),
        }
    }
}

/// Law: dispatch is pure delegation. Spawning a task through the facade
/// gives exactly the join handle the underlying scheduler's own spawn
/// gives for the same task — no transformation of input or output on
/// either scheduler kind.
pub proof fn lemma_spawn_delegates(sp: Spawner, task: Task)
    requires
        !(sp is Shell),
    ensures
        sp matches Spawner::Basic(s) ==> spawn_result(sp, task) == basic_spawn_result(s, task),
        sp matches Spawner::ThreadPool(s) ==> spawn_result(sp, task) == thread_pool_spawn_result(
            s,
            task,
        ),
{
}

} // verus!
