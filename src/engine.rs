use vstd::prelude::*;
use crate::run::{Run, status_at};
use crate::fixture::{ActorId, Fixture, FixtureView, copy_fixtures, fixtures_view, total_gas, gas_fits};

verus! {

/// Why an engine operation was refused.
#[derive(Debug, PartialEq, Eq)]
pub enum Error {
    NotFound,
    NotEnoughGas { actual: u64, needed: u64 },
}

/// The target actor and the collection of fixtures run against it.
pub struct Service {
    pub address: ActorId,
    pub fixtures: Vec<Fixture>,
}

impl Service {
    pub open spec fn view_fixtures(&self) -> Seq<FixtureView> {
        fixtures_view(self.fixtures@)
    }

    /// An empty collection run against `address`.
    pub fn new(address: ActorId) -> (r: Service)
        ensures
            r.address == address,
            r.fixtures@.len() == 0,
    {
        Service { address, fixtures: Vec::new() }
    }

    /// The target actor.
    pub fn address(&self) -> (r: ActorId)
        ensures
            r == self.address,
    {
        self.address
    }

    /// The collection, by position.
    pub fn fixtures(&self) -> (r: &Vec<Fixture>)
        ensures
            r == &self.fixtures,
    {
        &self.fixtures
    }

    /// Appends a fixture at the end of the collection.
    pub fn add_fixture(&mut self, fixture: Fixture)
        ensures
            final(self).address == old(self).address,
            final(self).view_fixtures() == old(self).view_fixtures().push(fixture@),
    {
        self.fixtures.push(fixture);
        assert(final(self).view_fixtures() =~= old(self).view_fixtures().push(fixture@));
    }

    /// Removes the fixture at `index`, shifting later ones down by one.
    pub fn drop_fixture(&mut self, index: usize)
        requires
            index < old(self).fixtures@.len(),
        ensures
            final(self).address == old(self).address,
            final(self).view_fixtures() == old(self).view_fixtures().remove(index as int),
    {
        self.fixtures.remove(index);
        assert(final(self).view_fixtures() =~= old(self).view_fixtures().remove(index as int));
    }

    /// Replaces the fixture at `index`.
    pub fn set_fixture(&mut self, index: usize, fixture: Fixture)
        requires
            index < old(self).fixtures@.len(),
        ensures
            final(self).address == old(self).address,
            final(self).view_fixtures() == old(self).view_fixtures().update(
                index as int,
                fixture@,
            ),
    {
        self.fixtures.set(index, fixture);
        assert(final(self).view_fixtures() =~= old(self).view_fixtures().update(
            index as int,
            fixture@,
        ));
    }

    /// Empties the collection.
    pub fn clear_fixtures(&mut self)
        ensures
            final(self).address == old(self).address,
            final(self).view_fixtures() == Seq::<FixtureView>::empty(),
    {
        self.fixtures.clear();
        assert(final(self).view_fixtures() =~= Seq::<FixtureView>::empty());
    }

    /// The gas the whole collection declares, `None` when it exceeds `u64::MAX`.
    pub fn gas_required(&self) -> (r: Option<u64>)
        ensures
            gas_fits(r, total_gas(self.view_fixtures())),
    {
        let ghost fv = self.view_fixtures();
        let mut total: Option<u64> = Some(0);
        let mut i: usize = 0;
        while i < self.fixtures.len()
            invariant
                0 <= i <= self.fixtures.len(),
                fv == self.view_fixtures(),
                gas_fits(total, total_gas(fv.take(i as int))),
            decreases self.fixtures.len() - i,
        {
            let g = self.fixtures[i].gas_required();
            proof {
                assert(fv.take(i as int + 1).drop_last() =~= fv.take(i as int));
                assert(fv[i as int] == self.fixtures@[i as int]@);
                lemma_total_gas_nonneg(fv.take(i as int));
                crate::fixture::lemma_messages_gas_nonneg(
                    crate::fixture::schedule(fv[i as int]),
                );
            }
            total = match (total, g) {
                (Some(a), Some(b)) => {
                    if a > u64::MAX - b {
                        None
                    } else {
                        Some(a + b)
                    }
                },
                _ => None,
            };
            i = i + 1;
        }
        assert(fv.take(i as int) =~= fv);
        total
    }
}

/// The gas a collection declares is never below zero.
pub proof fn lemma_total_gas_nonneg(fs: Seq<FixtureView>)
    ensures
        total_gas(fs) >= 0,
    decreases fs.len(),
{
    if fs.len() > 0 {
        lemma_total_gas_nonneg(fs.drop_last());
        crate::fixture::lemma_messages_gas_nonneg(crate::fixture::schedule(fs.last()));
    }
}

/// The gas reported as needed when a run is refused: the declared total, or
/// `u64::MAX` when the total does not fit.
pub open spec fn needed_gas(total: int) -> u64 {
    if total <= u64::MAX {
        total as u64
    } else {
        u64::MAX
    }
}

/// The owner after `control` is carried out with `owner` in place.
pub open spec fn owner_after(owner: ActorId, control: Control) -> ActorId {
    match control {
        Control::ReplaceOwner { new_owner } => new_owner,
        _ => owner,
    }
}

/// A command of the control protocol.
#[derive(Debug)]
pub enum Control {
    GetOwner,
    ReplaceOwner { new_owner: ActorId },
    GetFixtures,
    RemoveFixture { index: u32 },
    UpdateFixture { index: u32, fixture: Fixture },
    AddFixture { fixture: Fixture },
    ClearFixtures,
    RunFixtures,
}

/// The result of one dispatched command.
pub enum Answer {
    /// The current owner.
    Owner(ActorId),
    /// A snapshot of the collection.
    Fixtures(Vec<Fixture>),
    /// The result of a removal or an update.
    Done(Result<(), Error>),
    /// An admitted run to drive, or the refusal of the run.
    Run(Result<Run, Error>),
    /// A command with no result.
    Empty,
}

/// An encoded reply payload; `None` when a command has nothing to return.
#[derive(Debug)]
pub struct Reply {
    pub payload: Option<Vec<u8>>,
}

impl Reply {
    /// The reply of a command with nothing to return.
    pub fn none() -> (r: Reply)
        ensures
            r.payload is None,
    {
        Reply { payload: None }
    }
}

/// The engine behind the control protocol: the service and its owner.
pub struct Handler {
    pub service: Service,
    pub owner: ActorId,
}

impl Handler {
    pub open spec fn view_fixtures(&self) -> Seq<FixtureView> {
        self.service.view_fixtures()
    }

    /// Every fixture has an index that the protocol's `u32` can carry.
    pub open spec fn wf(&self) -> bool {
        self.view_fixtures().len() <= u32::MAX
    }

    /// An engine over `service`, owned by `owner`.
    pub fn new(service: Service, owner: ActorId) -> (r: Handler)
        ensures
            r.service == service,
            r.owner == owner,
    {
        Handler { service, owner }
    }

    /// The current owner.
    pub fn get_owner(&self) -> (r: ActorId)
        ensures
            r == self.owner,
    {
        self.owner
    }

    /// Rebinds the owner seen by every later command.
    pub fn replace_owner(&mut self, new_owner: ActorId)
        ensures
            final(self).owner == new_owner,
            final(self).service == old(self).service,
    {
        self.owner = new_owner;
    }

    /// A copy of the collection.
    pub fn get_fixtures(&self) -> (r: Vec<Fixture>)
        ensures
            fixtures_view(r@) == self.view_fixtures(),
    {
        copy_fixtures(&self.service.fixtures)
    }

    /// Removes the fixture at `index`, shifting later ones down by one.
    pub fn remove_fixture(&mut self, index: u32) -> (r: Result<(), Error>)
        requires
            old(self).wf(),
        ensures
            final(self).wf(),
            final(self).owner == old(self).owner,
            final(self).service.address == old(self).service.address,
            index < old(self).view_fixtures().len() ==> r == Ok::<(), Error>(()) && final(self).view_fixtures()
                == old(self).view_fixtures().remove(index as int),
            index >= old(self).view_fixtures().len() ==> r == Err::<(), Error>(Error::NotFound)
                && final(self).view_fixtures() == old(self).view_fixtures(),
    {
        if (index as usize) < self.service.fixtures.len() {
            self.service.drop_fixture(index as usize);
            Ok(())
        } else {
            Err(Error::NotFound)
        }
    }

    /// Replaces the fixture at `index`.
    pub fn update_fixture(&mut self, index: u32, fixture: Fixture) -> (r: Result<(), Error>)
        requires
            old(self).wf(),
        ensures
            final(self).wf(),
            final(self).owner == old(self).owner,
            final(self).service.address == old(self).service.address,
            index < old(self).view_fixtures().len() ==> r == Ok::<(), Error>(()) && final(self).view_fixtures()
                == old(self).view_fixtures().update(index as int, fixture@),
            index >= old(self).view_fixtures().len() ==> r == Err::<(), Error>(Error::NotFound)
                && final(self).view_fixtures() == old(self).view_fixtures(),
    {
        if (index as usize) < self.service.fixtures.len() {
            self.service.set_fixture(index as usize, fixture);
            Ok(())
        } else {
            Err(Error::NotFound)
        }
    }

    /// Appends a fixture at the end of the collection.
    pub fn add_fixture(&mut self, fixture: Fixture)
        requires
            old(self).view_fixtures().len() < u32::MAX,
        ensures
            final(self).wf(),
            final(self).owner == old(self).owner,
            final(self).service.address == old(self).service.address,
            final(self).view_fixtures() == old(self).view_fixtures().push(fixture@),
    {
        self.service.add_fixture(fixture);
    }

    /// Empties the collection.
    pub fn clear_fixtures(&mut self)
        ensures
            final(self).wf(),
            final(self).owner == old(self).owner,
            final(self).service.address == old(self).service.address,
            final(self).view_fixtures() == Seq::<FixtureView>::empty(),
    {
        self.service.clear_fixtures();
    }

    /// Admits a run of the whole collection when `gas_available` covers the gas
    /// it declares, and refuses it with `NotEnoughGas` otherwise, before any
    /// request is made. An admitted run starts every fixture at its first
    /// request.
    pub fn run_fixtures(&self, gas_available: u64) -> (r: Result<Run, Error>)
        requires
            self.wf(),
        ensures
            gas_available < total_gas(self.view_fixtures()) <==> r is Err,
            r is Err ==> r == Err::<Run, Error>(
                Error::NotEnoughGas {
                    actual: gas_available,
                    needed: needed_gas(total_gas(self.view_fixtures())),
                },
            ),
            r matches Ok(run) ==> run.wf() && run.target == self.service.address
                && run.view_fixtures() == self.view_fixtures() && forall|i: int|
                0 <= i < run.runs@.len() ==> (#[trigger] run.runs@[i]).pos(run.view_fixtures()[i])
                == 0 && run.runs@[i].status == status_at(run.view_fixtures()[i], 0),
    {
        let needed = self.service.gas_required();
        match needed {
            None => {
                return Err(Error::NotEnoughGas { actual: gas_available, needed: u64::MAX });
            },
            Some(n) => {
                if gas_available < n {
                    return Err(Error::NotEnoughGas { actual: gas_available, needed: n });
                }
            },
        }
        let snapshot = copy_fixtures(&self.service.fixtures);
        let run = Run::new(self.service.address, snapshot);
        proof {
            assert forall|i: int| 0 <= i < run.runs@.len() implies run.view_fixtures()[i]
                == run.fixtures@[i]@ by {}
        }
        Ok(run)
    }

    /// Carries out one command. Each command sees the owner left by the
    /// commands before it.
    pub fn dispatch(&mut self, control: Control, gas_available: u64) -> (r: Answer)
        requires
            old(self).wf(),
            control matches Control::AddFixture { .. } ==> old(self).view_fixtures().len()
                < u32::MAX,
        ensures
            final(self).wf(),
            final(self).service.address == old(self).service.address,
            final(self).owner == owner_after(old(self).owner, control),
            match control {
                Control::GetOwner => r == Answer::Owner(old(self).owner) && final(self).view_fixtures() == old(self).view_fixtures(),
                Control::ReplaceOwner { .. } => r is Empty && final(self).view_fixtures() == old(self).view_fixtures(),
                Control::GetFixtures => (r matches Answer::Fixtures(v) && fixtures_view(v@)
                    == old(self).view_fixtures()) && final(self).view_fixtures() == old(self).view_fixtures(),
                Control::RemoveFixture { index } => if index < old(self).view_fixtures().len() {
                    r == Answer::Done(Ok(())) && final(self).view_fixtures() == old(self).view_fixtures().remove(index as int)
                } else {
                    r == Answer::Done(Err(Error::NotFound)) && final(self).view_fixtures()
                        == old(self).view_fixtures()
                },
                Control::UpdateFixture { index, fixture } => if index < old(self).view_fixtures().len() {
                    r == Answer::Done(Ok(())) && final(self).view_fixtures() == old(self).view_fixtures().update(index as int, fixture@)
                } else {
                    r == Answer::Done(Err(Error::NotFound)) && final(self).view_fixtures()
                        == old(self).view_fixtures()
                },
                Control::AddFixture { fixture } => r is Empty && final(self).view_fixtures()
                    == old(self).view_fixtures().push(fixture@),
                Control::ClearFixtures => r is Empty && final(self).view_fixtures()
                    == Seq::<FixtureView>::empty(),
                Control::RunFixtures => final(self).view_fixtures() == old(self).view_fixtures()
                    && (r matches Answer::Run(res) && (res is Err <==> gas_available < total_gas(
                    old(self).view_fixtures(),
                )) && (res is Err ==> res == Err::<Run, Error>(
                    Error::NotEnoughGas {
                        actual: gas_available,
                        needed: needed_gas(total_gas(old(self).view_fixtures())),
                    },
                ))),
            },
    {
        match control {
            Control::GetOwner => Answer::Owner(self.get_owner()),
            Control::ReplaceOwner { new_owner } => {
                self.replace_owner(new_owner);
                Answer::Empty
            },
            Control::GetFixtures => Answer::Fixtures(self.get_fixtures()),
            Control::RemoveFixture { index } => Answer::Done(self.remove_fixture(index)),
            Control::UpdateFixture { index, fixture } => Answer::Done(
                self.update_fixture(index, fixture),
            ),
            Control::AddFixture { fixture } => {
                self.add_fixture(fixture);
                Answer::Empty
            },
            Control::ClearFixtures => {
                self.clear_fixtures();
                Answer::Empty
            },
            Control::RunFixtures => Answer::Run(self.run_fixtures(gas_available)),
        }
    }
}

/// Replacing the owner takes effect on the very next command: a `GetOwner`
/// dispatched after `ReplaceOwner { new_owner }` answers `new_owner`, whatever
/// the owner was before.
pub proof fn lemma_owner_read_after_write(owner: ActorId, new_owner: ActorId)
    ensures
        ({
            let replaced = owner_after(owner, Control::ReplaceOwner { new_owner });
            &&& replaced == new_owner
            &&& owner_after(replaced, Control::GetOwner) == new_owner
        }),
{
}

} // verus!
