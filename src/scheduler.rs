use vstd::prelude::*;

verus! {

/// Where a test coroutine of the current run stands.
#[derive(Clone, Copy, Debug, PartialEq, Eq, Structural)]
pub enum TaskState {
    /// Able to make progress: just started, or just resumed by a reply.
    Ready,
    /// Suspended until the reply correlated with this request arrives.
    Waiting(u64),
    /// Ran to completion.
    Completed,
}

/// A test coroutine of the current run, by the identity of its test.
#[derive(Clone, Copy, Debug, PartialEq, Eq, Structural)]
pub struct Task {
    pub test: u64,
    pub state: TaskState,
}

/// Drives registered test coroutines. Registering a test only queues it;
/// a run takes every queued test at once and each of its coroutines then
/// advances only when the reply it waits for arrives.
pub struct Scheduler {
    pub pending: Vec<u64>,
    pub tasks: Vec<Task>,
}

/// Whether some task other than `except` waits on `correlation`.
pub open spec fn waited_by_other(tasks: Seq<Task>, correlation: u64, except: int) -> bool {
    exists|k: int|
        0 <= k < tasks.len() && k != except && (#[trigger] tasks[k]).state == TaskState::Waiting(
            correlation,
        )
}

impl Scheduler {
    /// No two tasks wait on the same correlation: each reply resumes at most
    /// one task.
    pub open spec fn wf(&self) -> bool {
        forall|i: int, j: int|
            0 <= i < self.tasks@.len() && 0 <= j < self.tasks@.len() && i != j && (
            #[trigger] self.tasks@[i]).state is Waiting ==> (#[trigger] self.tasks@[j]).state
                != self.tasks@[i].state
    }

    /// Whether every task of the current run has completed.
    pub open spec fn done(&self) -> bool {
        forall|i: int| 0 <= i < self.tasks@.len() ==> (#[trigger] self.tasks@[i]).state
            == TaskState::Completed
    }

    pub fn new() -> (r: Scheduler)
        ensures
            r.wf(),
            r.pending@.len() == 0,
            r.tasks@.len() == 0,
    {
        Scheduler { pending: Vec::new(), tasks: Vec::new() }
    }

    /// Queues a test without starting it.
    pub fn register(&mut self, test: u64)
        ensures
            final(self).pending@ == old(self).pending@.push(test),
            final(self).tasks@ == old(self).tasks@,
    {
        self.pending.push(test);
    }

    /// Starts a run of every queued test, in the order they were queued, and
    /// empties the queue; tests queued later wait for the next run.
    pub fn drain(&mut self) -> (n: usize)
        requires
            old(self).done(),
        ensures
            final(self).wf(),
            n == old(self).pending@.len(),
            final(self).pending@.len() == 0,
            final(self).tasks@.len() == n,
            forall|i: int|
                0 <= i < n ==> #[trigger] final(self).tasks@[i] == (Task {
                    test: old(self).pending@[i],
                    state: TaskState::Ready,
                }),
    {
        let mut tasks: Vec<Task> = Vec::new();
        let mut i: usize = 0;
        while i < self.pending.len()
            invariant
                0 <= i <= self.pending.len(),
                tasks@.len() == i,
                forall|k: int|
                    0 <= k < i ==> #[trigger] tasks@[k] == (Task {
                        test: self.pending@[k],
                        state: TaskState::Ready,
                    }),
            decreases self.pending.len() - i,
        {
            tasks.push(Task { test: self.pending[i], state: TaskState::Ready });
            i = i + 1;
        }
        self.tasks = tasks;
        self.pending = Vec::new();
        i
    }

    /// Suspends ready task `i` until the reply correlated with `correlation`.
    pub fn suspend(&mut self, i: usize, correlation: u64)
        requires
            old(self).wf(),
            i < old(self).tasks@.len(),
            old(self).tasks@[i as int].state == TaskState::Ready,
            !waited_by_other(old(self).tasks@, correlation, i as int),
        ensures
            final(self).wf(),
            final(self).pending@ == old(self).pending@,
            final(self).tasks@ == old(self).tasks@.update(
                i as int,
                Task { test: old(self).tasks@[i as int].test, state: TaskState::Waiting(correlation) },
            ),
    {
        let test = self.tasks[i].test;
        self.tasks.set(i, Task { test, state: TaskState::Waiting(correlation) });
    }

    /// Hands a reply to the task waiting on its correlation and makes it ready;
    /// a reply that no task waits on resumes nothing.
    pub fn resume(&mut self, correlation: u64) -> (r: Option<usize>)
        requires
            old(self).wf(),
        ensures
            final(self).wf(),
            final(self).pending@ == old(self).pending@,
            match r {
                Some(i) => i < old(self).tasks@.len() && old(self).tasks@[i as int].state
                    == TaskState::Waiting(correlation) && final(self).tasks@ == old(
                    self).tasks@.update(
                    i as int,
                    Task { test: old(self).tasks@[i as int].test, state: TaskState::Ready },
                ),
                None => final(self).tasks@ == old(self).tasks@ && !waited_by_other(
                    old(self).tasks@,
                    correlation,
                    -1,
                ),
            },
    {
        let mut i: usize = 0;
        while i < self.tasks.len()
            invariant
                0 <= i <= self.tasks.len(),
                self.wf(),
                self.pending@ == old(self).pending@,
                self.tasks@ == old(self).tasks@,
                forall|k: int| 0 <= k < i ==> (#[trigger] self.tasks@[k]).state != TaskState::Waiting(
                    correlation,
                ),
            decreases self.tasks.len() - i,
        {
            if self.tasks[i].state == TaskState::Waiting(correlation) {
                let test = self.tasks[i].test;
                self.tasks.set(i, Task { test, state: TaskState::Ready });
                return Some(i);
            }
            i = i + 1;
        }
        None
    }

    /// Marks ready task `i` as completed.
    pub fn complete(&mut self, i: usize)
        requires
            old(self).wf(),
            i < old(self).tasks@.len(),
            old(self).tasks@[i as int].state == TaskState::Ready,
        ensures
            final(self).wf(),
            final(self).pending@ == old(self).pending@,
            final(self).tasks@ == old(self).tasks@.update(
                i as int,
                Task { test: old(self).tasks@[i as int].test, state: TaskState::Completed },
            ),
    {
        let test = self.tasks[i].test;
        self.tasks.set(i, Task { test, state: TaskState::Completed });
    }

    /// Whether every task of the current run has completed.
    pub fn is_done(&self) -> (r: bool)
        ensures
            r == self.done(),
    {
        let mut i: usize = 0;
        while i < self.tasks.len()
            invariant
                0 <= i <= self.tasks.len(),
                forall|k: int| 0 <= k < i ==> (#[trigger] self.tasks@[k]).state == TaskState::Completed,
            decreases self.tasks.len() - i,
        {
            if self.tasks[i].state != TaskState::Completed {
                return false;
            }
            i = i + 1;
        }
        true
    }
}

} // verus!
