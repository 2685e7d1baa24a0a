use vstd::prelude::*;

verus! {

/// Identity of an actor: 32 raw bytes.
#[derive(Clone, Copy, Debug, PartialEq, Eq)]
pub struct ActorId {
    pub bytes: [u8; 32],
}

/// A request sent to the target: payload, gas allowance and value transfer.
#[derive(Debug)]
pub struct Message {
    pub payload: Vec<u8>,
    pub gas: u64,
    pub value: u128,
}

/// The expected reply of an expectation step; `None` accepts any reply.
#[derive(Debug)]
pub struct Response {
    pub payload: Option<Vec<u8>>,
}

/// A request paired with the reply it should produce.
#[derive(Debug)]
pub struct Expectation {
    pub request: Message,
    pub response: Response,
}

/// One scenario: preparation steps, then expectation steps, each in list order.
#[derive(Debug)]
pub struct Fixture {
    pub preparation: Vec<Message>,
    pub expectations: Vec<Expectation>,
}

/// A request as a mathematical value.
pub struct MessageView {
    pub payload: Seq<u8>,
    pub gas: u64,
    pub value: u128,
}

/// An expectation step: its request and the payload it expects, if any.
pub struct ExpectationView {
    pub request: MessageView,
    pub expected: Option<Seq<u8>>,
}

/// A fixture as its two lists of steps.
pub struct FixtureView {
    pub preparation: Seq<MessageView>,
    pub expectations: Seq<ExpectationView>,
}

impl View for Message {
    type V = MessageView;

    open spec fn view(&self) -> MessageView {
        MessageView { payload: self.payload@, gas: self.gas, value: self.value }
    }
}

pub open spec fn option_bytes_view(o: Option<Vec<u8>>) -> Option<Seq<u8>> {
    match o {
        Some(v) => Some(v@),
        None => None,
    }
}

impl View for Expectation {
    type V = ExpectationView;

    open spec fn view(&self) -> ExpectationView {
        ExpectationView {
            request: self.request@,
            expected: option_bytes_view(self.response.payload),
        }
    }
}

impl View for Fixture {
    type V = FixtureView;

    open spec fn view(&self) -> FixtureView {
        FixtureView {
            preparation: self.preparation@.map_values(|m: Message| m@),
            expectations: self.expectations@.map_values(|e: Expectation| e@),
        }
    }
}

/// The views of a sequence of fixtures.
pub open spec fn fixtures_view(fs: Seq<Fixture>) -> Seq<FixtureView> {
    fs.map_values(|f: Fixture| f@)
}

/// Every request a fixture sends, in the order it sends them: all preparation
/// steps, then the request of each expectation step.
pub open spec fn schedule(f: FixtureView) -> Seq<MessageView> {
    f.preparation + f.expectations.map_values(|e: ExpectationView| e.request)
}

/// Sum of the gas allowances of a sequence of requests.
pub open spec fn messages_gas(s: Seq<MessageView>) -> int
    decreases s.len(),
{
    if s.len() == 0 {
        0
    } else {
        messages_gas(s.drop_last()) + s.last().gas
    }
}

/// The gas a fixture declares: the allowance of every request it sends.
pub open spec fn fixture_gas(f: FixtureView) -> int {
    messages_gas(schedule(f))
}

/// The gas a whole collection declares.
pub open spec fn total_gas(fs: Seq<FixtureView>) -> int
    decreases fs.len(),
{
    if fs.len() == 0 {
        0
    } else {
        total_gas(fs.drop_last()) + fixture_gas(fs.last())
    }
}

/// The gas of two lists of requests, one after the other, is the sum of theirs.
pub proof fn lemma_messages_gas_append(a: Seq<MessageView>, b: Seq<MessageView>)
    ensures
        messages_gas(a + b) == messages_gas(a) + messages_gas(b),
    decreases b.len(),
{
    if b.len() == 0 {
        assert(a + b =~= a);
    } else {
        assert((a + b).drop_last() =~= a + b.drop_last());
        lemma_messages_gas_append(a, b.drop_last());
    }
}

/// Gas allowances never sum to less than zero.
pub proof fn lemma_messages_gas_nonneg(s: Seq<MessageView>)
    ensures
        messages_gas(s) >= 0,
    decreases s.len(),
{
    if s.len() > 0 {
        lemma_messages_gas_nonneg(s.drop_last());
    }
}

/// Adds `g` to a running gas total, `None` standing for a total past `u64::MAX`.
fn add_gas(acc: Option<u64>, g: u64) -> (r: Option<u64>)
    ensures
        match (acc, r) {
            (None, None) => true,
            (Some(a), Some(x)) => x == a + g,
            (Some(a), None) => a + g > u64::MAX,
            (None, Some(_)) => false,
        },
{
    match acc {
        None => None,
        Some(a) => {
            if a > u64::MAX - g {
                None
            } else {
                Some(a + g)
            }
        },
    }
}

/// `Some(g)` when the gas `g` fits in a `u64`, `None` when it does not.
pub open spec fn gas_fits(r: Option<u64>, g: int) -> bool {
    match r {
        Some(x) => x == g,
        None => g > u64::MAX,
    }
}

/// `acc` plus the gas of the requests `s`, `None` standing for a total past
/// `u64::MAX`.
fn messages_gas_from(acc: Option<u64>, s: &Vec<Message>, Ghost(base): Ghost<int>) -> (r: Option<u64>)
    requires
        gas_fits(acc, base),
        base >= 0,
    ensures
        gas_fits(r, base + messages_gas(s@.map_values(|m: Message| m@))),
{
    let ghost view = s@.map_values(|m: Message| m@);
    let mut total = acc;
    let mut i: usize = 0;
    while i < s.len()
        invariant
            0 <= i <= s.len(),
            view == s@.map_values(|m: Message| m@),
            base >= 0,
            gas_fits(total, base + messages_gas(view.take(i as int))),
        decreases s.len() - i,
    {
        proof {
            assert(view.take(i as int + 1).drop_last() =~= view.take(i as int));
            lemma_messages_gas_nonneg(view.take(i as int));
        }
        total = add_gas(total, s[i].gas);
        i = i + 1;
    }
    assert(view.take(s.len() as int) =~= view);
    total
}

impl Fixture {
    /// The gas this fixture declares, `None` when it exceeds `u64::MAX`.
    pub fn gas_required(&self) -> (r: Option<u64>)
        ensures
            gas_fits(r, fixture_gas(self@)),
    {
        let ghost prep = self.preparation@.map_values(|m: Message| m@);
        let ghost reqs = self@.expectations.map_values(|e: ExpectationView| e.request);
        let g0 = messages_gas_from(Some(0), &self.preparation, Ghost(0));
        let mut total = g0;
        let mut i: usize = 0;
        proof {
            lemma_messages_gas_nonneg(prep);
        }
        while i < self.expectations.len()
            invariant
                0 <= i <= self.expectations.len(),
                prep == self.preparation@.map_values(|m: Message| m@),
                reqs == self@.expectations.map_values(|e: ExpectationView| e.request),
                messages_gas(prep) >= 0,
                gas_fits(total, messages_gas(prep) + messages_gas(reqs.take(i as int))),
            decreases self.expectations.len() - i,
        {
            proof {
                assert(reqs.take(i as int + 1).drop_last() =~= reqs.take(i as int));
                lemma_messages_gas_nonneg(reqs.take(i as int));
            }
            total = add_gas(total, self.expectations[i].request.gas);
            i = i + 1;
        }
        proof {
            assert(reqs.take(i as int) =~= reqs);
            lemma_messages_gas_append(prep, reqs);
        }
        total
    }
}

/// A copy of a byte buffer.
pub fn copy_bytes(v: &Vec<u8>) -> (r: Vec<u8>)
    ensures
        r@ == v@,
{
    let r = v.clone();
    assert(r@ =~= v@);
    r
}

impl Message {
    /// A copy of this request.
    pub fn duplicate(&self) -> (r: Message)
        ensures
            r@ == self@,
    {
        Message { payload: copy_bytes(&self.payload), gas: self.gas, value: self.value }
    }
}

impl Expectation {
    /// A copy of this expectation step.
    pub fn duplicate(&self) -> (r: Expectation)
        ensures
            r@ == self@,
    {
        let payload = match &self.response.payload {
            Some(p) => Some(copy_bytes(p)),
            None => None,
        };
        Expectation { request: self.request.duplicate(), response: Response { payload } }
    }
}

impl Fixture {
    /// A copy of this fixture.
    pub fn duplicate(&self) -> (r: Fixture)
        ensures
            r@ == self@,
    {
        let mut preparation: Vec<Message> = Vec::new();
        let mut i: usize = 0;
        while i < self.preparation.len()
            invariant
                0 <= i <= self.preparation.len(),
                preparation@.len() == i,
                forall|k: int| 0 <= k < i ==> #[trigger] preparation@[k]@ == self.preparation@[k]@,
            decreases self.preparation.len() - i,
        {
            preparation.push(self.preparation[i].duplicate());
            i = i + 1;
        }
        let mut expectations: Vec<Expectation> = Vec::new();
        let mut j: usize = 0;
        while j < self.expectations.len()
            invariant
                0 <= j <= self.expectations.len(),
                expectations@.len() == j,
                forall|k: int| 0 <= k < j ==> #[trigger] expectations@[k]@ == self.expectations@[k]@,
            decreases self.expectations.len() - j,
        {
            expectations.push(self.expectations[j].duplicate());
            j = j + 1;
        }
        assert(preparation@.map_values(|m: Message| m@) =~= self.preparation@.map_values(
            |m: Message| m@,
        ));
        assert(expectations@.map_values(|e: Expectation| e@) =~= self.expectations@.map_values(
            |e: Expectation| e@,
        ));
        Fixture { preparation, expectations }
    }
}

/// A copy of a collection of fixtures.
pub fn copy_fixtures(fs: &Vec<Fixture>) -> (r: Vec<Fixture>)
    ensures
        fixtures_view(r@) == fixtures_view(fs@),
{
    let mut r: Vec<Fixture> = Vec::new();
    let mut i: usize = 0;
    while i < fs.len()
        invariant
            0 <= i <= fs.len(),
            r@.len() == i,
            forall|k: int| 0 <= k < i ==> #[trigger] r@[k]@ == fs@[k]@,
        decreases fs.len() - i,
    {
        r.push(fs[i].duplicate());
        i = i + 1;
    }
    assert(fixtures_view(r@) =~= fixtures_view(fs@));
    r
}

} // verus!
