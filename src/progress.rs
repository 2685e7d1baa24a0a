use vstd::prelude::*;
use crate::fixture::ActorId;

verus! {

/// Starts a test session against `deployed_actor`.
#[derive(Debug)]
pub struct ControlSignal {
    pub deployed_actor: ActorId,
}

/// A test lifecycle event reported to the control bus.
#[derive(Debug)]
pub enum ProgressSignal {
    TestStart(String),
    TestSuccess(String),
    TestFailure { name: String, reason: String },
}

/// The session a test runs in: the actor under test, and the actor that
/// started the session and receives its progress events.
#[derive(Clone, Copy, Debug)]
pub struct TestContext {
    pub deployed_actor: ActorId,
    pub control_bus: ActorId,
}

/// A progress event and the actor it is sent to.
#[derive(Debug)]
pub struct Progress {
    pub destination: ActorId,
    pub signal: ProgressSignal,
}

impl TestContext {
    /// The session started by `signal`, which `source` sent.
    pub fn current(signal: ControlSignal, source: ActorId) -> (r: TestContext)
        ensures
            r.deployed_actor == signal.deployed_actor,
            r.control_bus == source,
    {
        TestContext { deployed_actor: signal.deployed_actor, control_bus: source }
    }

    pub fn send_progress(&self, signal: ProgressSignal) -> (r: Progress)
        ensures
            r.destination == self.control_bus,
            r.signal == signal,
    {
        Progress { destination: self.control_bus, signal }
    }

    pub fn test_start(&self, name: &str) -> (r: Progress)
        ensures
            r.destination == self.control_bus,
            r.signal matches ProgressSignal::TestStart(s) && s@ == name@,
    {
        self.send_progress(ProgressSignal::TestStart(name.to_owned()))
    }

    pub fn test_success(&self, name: &str) -> (r: Progress)
        ensures
            r.destination == self.control_bus,
            r.signal matches ProgressSignal::TestSuccess(s) && s@ == name@,
    {
        self.send_progress(ProgressSignal::TestSuccess(name.to_owned()))
    }

    pub fn test_failure(&self, name: &str, reason: &str) -> (r: Progress)
        ensures
            r.destination == self.control_bus,
            r.signal matches ProgressSignal::TestFailure { name: n, reason: w } && n@ == name@
                && w@ == reason@,
    {
        self.send_progress(
            ProgressSignal::TestFailure { name: name.to_owned(), reason: reason.to_owned() },
        )
    }
}

/// The liveness probe: answers `PONG` to `PING`, and nothing to anything else.
pub fn handle(payload: &Vec<u8>) -> (r: Option<Vec<u8>>)
    ensures
        payload@ == seq![80u8, 73u8, 78u8, 71u8] ==> (r matches Some(p) && p@ == seq![
            80u8,
            79u8,
            78u8,
            71u8,
        ]),
        payload@ != seq![80u8, 73u8, 78u8, 71u8] ==> r is None,
{
    let ping: Vec<u8> = vec![80u8, 73u8, 78u8, 71u8];
    if crate::run::bytes_equal(payload, &ping) {
        Some(vec![80u8, 79u8, 78u8, 71u8])
    } else {
        None
    }
}

} // verus!
