use vstd::prelude::*;
use crate::fixture::{FixtureView, schedule};
use crate::run::{Delivery, Status, failed_report, hint_of, replay};

verus! {

/// After a fixture is appended and the fixture at index 0 is removed, every
/// fixture that stood at index `j >= 1` stands at `j - 1`: the one that was
/// second is now first.
pub proof fn lemma_index_compaction(before: Seq<FixtureView>, f: FixtureView)
    requires
        before.len() >= 1,
    ensures
        ({
            let added = before.push(f);
            let after = added.remove(0);
            &&& after.len() == before.len()
            &&& after[0] == added[1]
            &&& forall|j: int| 1 <= j < added.len() ==> after[j - 1] == #[trigger] added[j]
        }),
{
}

/// A run report names exactly the failed fixtures: each entry is a failed
/// fixture with the hint of its failure, each failed fixture has an entry,
/// and entries come by strictly increasing index, so none is repeated.
pub proof fn lemma_report_exact(states: Seq<Status>)
    requires
        states.len() <= u32::MAX + 1,
    ensures
        ({
            let r = failed_report(states);
            &&& forall|k: int|
                0 <= k < r.len() ==> (#[trigger] r[k]).0 < states.len() && (states[r[k].0 as int] matches Status::Failed(
                    e,
                ) && r[k].1 == hint_of(e))
            &&& forall|i: int|
                0 <= i < states.len() && (#[trigger] states[i] is Failed) ==> exists|k: int|
                    0 <= k < r.len() && (#[trigger] r[k]).0 == i
            &&& forall|k: int, l: int| 0 <= k < l < r.len() ==> (#[trigger] r[k]).0 < (#[trigger] r[l]).0
        }),
    decreases states.len(),
{
    if states.len() > 0 {
        let prev = states.drop_last();
        lemma_report_exact(prev);
        let rp = failed_report(prev);
        let r = failed_report(states);
        let n = states.len() - 1;
        assert forall|k: int| 0 <= k < rp.len() implies (#[trigger] rp[k]).0 < n && states[rp[k].0 as int]
            == prev[rp[k].0 as int] by {}
        assert forall|i: int|
            0 <= i < states.len() && (#[trigger] states[i] is Failed) implies exists|k: int|
                0 <= k < r.len() && (#[trigger] r[k]).0 == i by {
            if i < n {
                assert(prev[i] is Failed);
                let k = choose|k: int| 0 <= k < rp.len() && (#[trigger] rp[k]).0 == i;
                assert(r[k] == rp[k]);
            } else {
                assert(r[r.len() - 1].0 == i);
            }
        }
    }
}

/// A fixture's requests go out one at a time in the order of its schedule:
/// after any sequence of deliveries, a fixture that is still running has
/// received one delivery per step taken, and the request it sends next is
/// the step of its schedule at that count. So every preparation request goes
/// out, in list order, before the first expectation request.
pub proof fn lemma_sequential_order(f: FixtureView, ds: Seq<Delivery>)
    ensures
        replay(f, ds).1 == Status::Running ==> replay(f, ds).0 == ds.len() && ds.len() < schedule(
            f,
        ).len(),
        replay(f, ds).1 == Status::Running && ds.len() < f.preparation.len() ==> schedule(
            f,
        )[ds.len() as int] == f.preparation[ds.len() as int],
        replay(f, ds).1 == Status::Passed ==> replay(f, ds).0 == schedule(f).len(),
    decreases ds.len(),
{
    if ds.len() > 0 {
        lemma_sequential_order(f, ds.drop_last());
    }
}

} // verus!
