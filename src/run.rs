use vstd::prelude::*;
use crate::fixture::{ActorId, Fixture, FixtureView, MessageView, fixtures_view, schedule};

verus! {

/// Index into the table of failure hints.
pub type StringIndex = u32;

/// Hint: a preparation request could not be sent.
pub const HINT_PREPARATION_SEND: StringIndex = 0;

/// Hint: an expectation request could not be sent.
pub const HINT_EXPECTATION_SEND: StringIndex = 1;

/// Hint: the target reported an error while handling an expectation request.
pub const HINT_EXECUTION: StringIndex = 2;

/// Hint: the target replied with a payload other than the expected one.
pub const HINT_PAYLOAD_MISMATCH: StringIndex = 3;

/// Why a fixture failed.
#[derive(Clone, Copy, Debug, PartialEq, Eq, Structural)]
pub enum Failure {
    PreparationSendFail,
    ExpectationSendFail,
    ExecutionFail,
    PayloadMismatch,
}

/// Where the run of one fixture stands.
#[derive(Clone, Copy, Debug, PartialEq, Eq, Structural)]
pub enum Status {
    Running,
    Passed,
    Failed(Failure),
}

/// What became of the request a fixture sent last.
#[derive(Debug)]
pub enum Delivery {
    /// The request could not be dispatched.
    SendFailed,
    /// The target replied with this payload.
    Replied(Vec<u8>),
    /// The target reported an error while handling the request.
    TargetError,
}

/// What the driver of a run does next for one fixture.
#[derive(Debug)]
pub enum Action {
    /// Send this request to the target and deliver what becomes of it.
    Send { payload: Vec<u8>, gas: u64, value: u128 },
    /// The fixture has reached its outcome.
    Finished,
}

/// The outcome of a run: each failed fixture's index with its failure hint.
#[derive(Debug)]
pub struct FailedFixtures {
    pub indices: Vec<(u32, StringIndex)>,
}

/// The hint recorded for a failure.
pub open spec fn hint_of(f: Failure) -> StringIndex {
    match f {
        Failure::PreparationSendFail => HINT_PREPARATION_SEND,
        Failure::ExpectationSendFail => HINT_EXPECTATION_SEND,
        Failure::ExecutionFail => HINT_EXECUTION,
        Failure::PayloadMismatch => HINT_PAYLOAD_MISMATCH,
    }
}

/// The failure, if any, of an expectation step whose request met `d`.
pub open spec fn expectation_failure(expected: Option<Seq<u8>>, d: Delivery) -> Option<Failure> {
    match d {
        Delivery::SendFailed => Some(Failure::ExpectationSendFail),
        Delivery::TargetError => Some(Failure::ExecutionFail),
        Delivery::Replied(p) => match expected {
            Some(x) => if x == p@ {
                None
            } else {
                Some(Failure::PayloadMismatch)
            },
            None => None,
        },
    }
}

/// Whether `a` sends the request `m`.
pub open spec fn sends(a: Action, m: MessageView) -> bool {
    match a {
        Action::Send { payload, gas, value } => payload@ == m.payload && gas == m.gas && value
            == m.value,
        Action::Finished => false,
    }
}

/// The status of a fixture whose next request is at `pos` of its schedule.
pub open spec fn status_at(f: FixtureView, pos: int) -> Status {
    if pos < schedule(f).len() {
        Status::Running
    } else {
        Status::Passed
    }
}

/// The position and status of a running fixture at `pos` once `d` is delivered.
/// A preparation step only fails when its request cannot be sent; its reply,
/// whatever it is, is discarded.
pub open spec fn next_state(f: FixtureView, pos: int, d: Delivery) -> (int, Status) {
    if pos < f.preparation.len() {
        match d {
            Delivery::SendFailed => (pos, Status::Failed(Failure::PreparationSendFail)),
            _ => (pos + 1, status_at(f, pos + 1)),
        }
    } else {
        match expectation_failure(f.expectations[pos - f.preparation.len()].expected, d) {
            Some(e) => (pos, Status::Failed(e)),
            None => (pos + 1, status_at(f, pos + 1)),
        }
    }
}

/// The state of a fixture after the deliveries `ds`, from its first request on.
pub open spec fn replay(f: FixtureView, ds: Seq<Delivery>) -> (int, Status)
    decreases ds.len(),
{
    if ds.len() == 0 {
        (0, status_at(f, 0))
    } else {
        let (pos, st) = replay(f, ds.drop_last());
        if st == Status::Running {
            next_state(f, pos, ds.last())
        } else {
            (pos, st)
        }
    }
}

/// The report entries of the failed fixtures among `states`, by increasing index.
pub open spec fn failed_report(states: Seq<Status>) -> Seq<(u32, StringIndex)>
    decreases states.len(),
{
    if states.len() == 0 {
        Seq::empty()
    } else {
        let rest = failed_report(states.drop_last());
        match states.last() {
            Status::Failed(e) => rest.push(((states.len() - 1) as u32, hint_of(e))),
            _ => rest,
        }
    }
}

/// Whether `a` and `b` hold the same bytes.
pub fn bytes_equal(a: &Vec<u8>, b: &Vec<u8>) -> (r: bool)
    ensures
        r == (a@ == b@),
{
    if a.len() != b.len() {
        return false;
    }
    let mut i: usize = 0;
    while i < a.len()
        invariant
            0 <= i <= a.len(),
            a.len() == b.len(),
            forall|k: int| 0 <= k < i ==> a@[k] == b@[k],
        decreases a.len() - i,
    {
        if a[i] != b[i] {
            return false;
        }
        i = i + 1;
    }
    assert(a@ =~= b@);
    true
}

/// Validates what became of an expectation request against the expected
/// payload: `None` accepts any reply, `Some(x)` only a reply of exactly `x`.
pub fn check_expectation(expected: &Option<Vec<u8>>, d: &Delivery) -> (r: Option<Failure>)
    ensures
        r == expectation_failure(crate::fixture::option_bytes_view(*expected), *d),
{
    match d {
        Delivery::SendFailed => Some(Failure::ExpectationSendFail),
        Delivery::TargetError => Some(Failure::ExecutionFail),
        Delivery::Replied(p) => match expected {
            Some(x) => {
                if bytes_equal(x, p) {
                    None
                } else {
                    Some(Failure::PayloadMismatch)
                }
            },
            None => None,
        },
    }
}

/// The hint recorded for a failure.
pub fn hint(f: Failure) -> (r: StringIndex)
    ensures
        r == hint_of(f),
{
    match f {
        Failure::PreparationSendFail => HINT_PREPARATION_SEND,
        Failure::ExpectationSendFail => HINT_EXPECTATION_SEND,
        Failure::ExecutionFail => HINT_EXECUTION,
        Failure::PayloadMismatch => HINT_PAYLOAD_MISMATCH,
    }
}

/// The progress of one fixture: which list its next request comes from, the
/// step within that list, and its status.
pub struct FixtureRun {
    pub expecting: bool,
    pub step: usize,
    pub status: Status,
}

impl FixtureRun {
    /// Position of the fixture's next request in its schedule.
    pub open spec fn pos(&self, f: FixtureView) -> int {
        if self.expecting {
            f.preparation.len() + self.step
        } else {
            self.step as int
        }
    }
}

/// One run of a snapshot of the collection: every fixture advances on its
/// own, in any interleaving with the others.
pub struct Run {
    pub target: ActorId,
    pub fixtures: Vec<Fixture>,
    pub runs: Vec<FixtureRun>,
}

impl Run {
    pub open spec fn view_fixtures(&self) -> Seq<FixtureView> {
        fixtures_view(self.fixtures@)
    }

    pub open spec fn statuses(&self) -> Seq<Status> {
        self.runs@.map_values(|r: FixtureRun| r.status)
    }

    /// One progress record per fixture, each within its fixture's schedule:
    /// a running fixture has a request left, a passed one has none.
    pub open spec fn wf(&self) -> bool {
        &&& self.runs@.len() == self.fixtures@.len()
        &&& self.fixtures@.len() <= u32::MAX
        &&& forall|i: int|
            0 <= i < self.runs@.len() ==> {
                let r = #[trigger] self.runs@[i];
                let n = schedule(self.fixtures@[i]@).len();
                let f = self.fixtures@[i]@;
                &&& r.expecting ==> r.step <= f.expectations.len()
                &&& !r.expecting ==> r.step <= f.preparation.len()
                &&& r.status == Status::Running ==> r.pos(f) < n
                &&& r.status == Status::Passed ==> r.pos(f) == n
            }
    }

    /// Starts a run of `fixtures` against `target`: every fixture at its first
    /// request, a fixture with no request at all already passed.
    pub fn new(target: ActorId, fixtures: Vec<Fixture>) -> (r: Run)
        requires
            fixtures@.len() <= u32::MAX,
        ensures
            r.wf(),
            r.target == target,
            r.fixtures@ == fixtures@,
            forall|i: int|
                0 <= i < r.runs@.len() ==> (#[trigger] r.runs@[i]).pos(fixtures@[i]@) == 0
                    && r.runs@[i].status == status_at(fixtures@[i]@, 0),
    {
        let mut runs: Vec<FixtureRun> = Vec::new();
        let mut i: usize = 0;
        while i < fixtures.len()
            invariant
                0 <= i <= fixtures.len(),
                runs@.len() == i,
                forall|k: int|
                    0 <= k < i ==> (#[trigger] runs@[k]).pos(fixtures@[k]@) == 0 && runs@[k].status
                        == status_at(fixtures@[k]@, 0) && !runs@[k].expecting,
            decreases fixtures.len() - i,
        {
            let f = &fixtures[i];
            let status = if f.preparation.len() == 0 && f.expectations.len() == 0 {
                Status::Passed
            } else {
                Status::Running
            };
            runs.push(FixtureRun { expecting: false, step: 0, status });
            i = i + 1;
        }
        Run { target, fixtures, runs }
    }

    /// What the driver does next for fixture `i`: send the request at its
    /// position in the schedule while it runs, nothing once it has an outcome.
    pub fn next_action(&self, i: usize) -> (r: Action)
        requires
            self.wf(),
            i < self.runs@.len(),
        ensures
            self.runs@[i as int].status == Status::Running ==> sends(
                r,
                schedule(self.fixtures@[i as int]@)[self.runs@[i as int].pos(
                    self.fixtures@[i as int]@,
                )],
            ),
            self.runs@[i as int].status != Status::Running ==> (r is Finished),
    {
        let run = &self.runs[i];
        if run.status != Status::Running {
            return Action::Finished;
        }
        let f = &self.fixtures[i];
        let np = f.preparation.len();
        let ghost fv = f@;
        let m = if !run.expecting && run.step < np {
            &f.preparation[run.step]
        } else {
            let k: usize = if run.expecting {
                run.step
            } else {
                0
            };
            proof {
                assert(run.pos(fv) == np + k);
            }
            &f.expectations[k].request
        };
        Action::Send {
            payload: crate::fixture::copy_bytes(&m.payload),
            gas: m.gas,
            value: m.value,
        }
    }

    /// Hands fixture `i` what became of the request it sent last.
    pub fn deliver(&mut self, i: usize, d: Delivery)
        requires
            old(self).wf(),
            i < old(self).runs@.len(),
            old(self).runs@[i as int].status == Status::Running,
        ensures
            final(self).wf(),
            final(self).target == old(self).target,
            final(self).fixtures@ == old(self).fixtures@,
            final(self).runs@.len() == old(self).runs@.len(),
            ({
                let f = old(self).fixtures@[i as int]@;
                let (pos, st) = next_state(f, old(self).runs@[i as int].pos(f), d);
                final(self).runs@[i as int].pos(f) == pos && final(self).runs@[i as int].status
                    == st
            }),
            forall|k: int|
                0 <= k < old(self).runs@.len() && k != i ==> #[trigger] final(self).runs@[k]
                    == old(self).runs@[k],
    {
        let ghost fv = self.fixtures@[i as int]@;
        let expecting = self.runs[i].expecting;
        let step = self.runs[i].step;
        let np = self.fixtures[i].preparation.len();
        let ne = self.fixtures[i].expectations.len();
        let next = if !expecting && step < np {
            match d {
                Delivery::SendFailed => FixtureRun {
                    expecting,
                    step,
                    status: Status::Failed(Failure::PreparationSendFail),
                },
                _ => {
                    if step + 1 < np {
                        FixtureRun { expecting: false, step: step + 1, status: Status::Running }
                    } else {
                        FixtureRun {
                            expecting: true,
                            step: 0,
                            status: if 0 < ne {
                                Status::Running
                            } else {
                                Status::Passed
                            },
                        }
                    }
                },
            }
        } else {
            let k: usize = if expecting {
                step
            } else {
                0
            };
            proof {
                assert(self.runs@[i as int].pos(fv) == np + k);
            }
            let e = &self.fixtures[i].expectations[k];
            match check_expectation(&e.response.payload, &d) {
                Some(failure) => FixtureRun { expecting: true, step: k, status: Status::Failed(failure) },
                None => FixtureRun {
                    expecting: true,
                    step: k + 1,
                    status: if k + 1 < ne {
                        Status::Running
                    } else {
                        Status::Passed
                    },
                },
            }
        };
        self.runs.set(i, next);
    }

    /// Whether every fixture has reached its outcome.
    pub fn is_complete(&self) -> (r: bool)
        ensures
            r == forall|i: int| 0 <= i < self.runs@.len() ==> #[trigger] self.runs@[i].status
                != Status::Running,
    {
        let mut i: usize = 0;
        while i < self.runs.len()
            invariant
                0 <= i <= self.runs.len(),
                forall|k: int| 0 <= k < i ==> #[trigger] self.runs@[k].status != Status::Running,
            decreases self.runs.len() - i,
        {
            if self.runs[i].status == Status::Running {
                return false;
            }
            i = i + 1;
        }
        true
    }

    /// The report of the run: every failed fixture, by increasing index, with
    /// the hint of its failure.
    pub fn report(&self) -> (r: FailedFixtures)
        requires
            self.wf(),
        ensures
            r.indices@ == failed_report(self.statuses()),
    {
        let ghost st = self.statuses();
        let mut indices: Vec<(u32, StringIndex)> = Vec::new();
        let mut i: usize = 0;
        while i < self.runs.len()
            invariant
                0 <= i <= self.runs.len(),
                self.runs@.len() <= u32::MAX,
                st == self.statuses(),
                indices@ == failed_report(st.take(i as int)),
            decreases self.runs.len() - i,
        {
            proof {
                assert(st.take(i as int + 1).drop_last() =~= st.take(i as int));
            }
            match self.runs[i].status {
                Status::Failed(e) => {
                    indices.push((i as u32, hint(e)));
                },
                _ => {},
            }
            i = i + 1;
        }
        assert(st.take(i as int) =~= st);
        FailedFixtures { indices }
    }
}

} // verus!
