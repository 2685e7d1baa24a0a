use test_runtime::engine::{Answer, Control, Error, Handler, Reply, Service};
use test_runtime::fixture::{ActorId, Expectation, Fixture, Message, Response};
use test_runtime::run::{Action, Delivery, Failure, Run, Status};

fn actor(b: u8) -> ActorId {
    ActorId { bytes: [b; 32] }
}

fn msg(payload: &[u8], gas: u64) -> Message {
    Message { payload: payload.to_vec(), gas, value: 0 }
}

fn expect(payload: &[u8], gas: u64, expected: Option<&[u8]>) -> Expectation {
    Expectation {
        request: msg(payload, gas),
        response: Response { payload: expected.map(|e| e.to_vec()) },
    }
}

fn fixture(preparation: Vec<Message>, expectations: Vec<Expectation>) -> Fixture {
    Fixture { preparation, expectations }
}

fn tagged(tag: u8) -> Fixture {
    fixture(vec![msg(&[tag], 1)], vec![])
}

fn tag_of(f: &Fixture) -> u8 {
    f.preparation[0].payload[0]
}

fn handler_with(fixtures: Vec<Fixture>) -> Handler {
    let mut h = Handler::new(Service::new(actor(9)), actor(1));
    for f in fixtures {
        h.add_fixture(f);
    }
    h
}

fn admitted(h: &Handler, gas: u64) -> Run {
    match h.run_fixtures(gas) {
        Ok(run) => run,
        Err(e) => panic!("run refused: {:?}", e),
    }
}

#[test]
fn admission_refuses_short_budget() {
    let h = handler_with(vec![
        fixture(vec![msg(b"a", 10)], vec![expect(b"b", 20, None)]),
        fixture(vec![], vec![expect(b"c", 5, None)]),
    ]);
    match h.run_fixtures(30) {
        Err(e) => assert_eq!(e, Error::NotEnoughGas { actual: 30, needed: 35 }),
        Ok(_) => panic!("admitted with too little gas"),
    }
    assert!(h.run_fixtures(35).is_ok());
    assert!(h.run_fixtures(u64::MAX).is_ok());
}

#[test]
fn admission_of_overflowing_requirement() {
    let h = handler_with(vec![fixture(vec![msg(b"a", u64::MAX)], vec![expect(b"b", 1, None)])]);
    match h.run_fixtures(u64::MAX) {
        Err(e) => assert_eq!(e, Error::NotEnoughGas { actual: u64::MAX, needed: u64::MAX }),
        Ok(_) => panic!("admitted beyond u64::MAX"),
    }
}

#[test]
fn empty_collection_needs_no_gas() {
    let h = handler_with(vec![]);
    let run = admitted(&h, 0);
    assert!(run.is_complete());
    assert!(run.report().indices.is_empty());
}

#[test]
fn crud_out_of_bounds_is_not_found() {
    let mut h = handler_with(vec![tagged(1), tagged(2)]);
    assert_eq!(h.remove_fixture(2), Err(Error::NotFound));
    assert_eq!(h.remove_fixture(u32::MAX), Err(Error::NotFound));
    assert_eq!(h.update_fixture(2, tagged(7)), Err(Error::NotFound));
    let fs = h.get_fixtures();
    assert_eq!(fs.len(), 2);
    assert_eq!(tag_of(&fs[0]), 1);
    assert_eq!(tag_of(&fs[1]), 2);
}

#[test]
fn crud_in_bounds() {
    let mut h = handler_with(vec![tagged(1), tagged(2), tagged(3)]);
    assert_eq!(h.update_fixture(1, tagged(7)), Ok(()));
    assert_eq!(h.remove_fixture(0), Ok(()));
    let fs = h.get_fixtures();
    assert_eq!(fs.iter().map(tag_of).collect::<Vec<u8>>(), vec![7, 3]);
    h.clear_fixtures();
    assert!(h.get_fixtures().is_empty());
}

#[test]
fn index_compaction_after_add_and_remove() {
    let mut h = handler_with(vec![tagged(1)]);
    h.add_fixture(tagged(2));
    assert_eq!(h.remove_fixture(0), Ok(()));
    let fs = h.get_fixtures();
    assert_eq!(fs.len(), 1);
    assert_eq!(tag_of(&fs[0]), 2);
}

fn drive_one(run: &mut Run, i: usize, replies: &mut dyn FnMut(&[u8]) -> Delivery) {
    loop {
        match run.next_action(i) {
            Action::Send { payload, .. } => {
                let d = replies(&payload);
                run.deliver(i, d);
            }
            Action::Finished => break,
        }
    }
}

#[test]
fn exact_match_expectation() {
    let h = handler_with(vec![fixture(vec![], vec![expect(b"q", 1, Some(b"X"))])]);
    let mut run = admitted(&h, 1);
    drive_one(&mut run, 0, &mut |_| Delivery::Replied(b"Y".to_vec()));
    assert_eq!(run.runs[0].status, Status::Failed(Failure::PayloadMismatch));
    assert_eq!(run.report().indices, vec![(0, 3)]);

    let mut run = admitted(&h, 1);
    drive_one(&mut run, 0, &mut |_| Delivery::Replied(b"X".to_vec()));
    assert_eq!(run.runs[0].status, Status::Passed);
    assert!(run.report().indices.is_empty());
}

#[test]
fn dont_care_expectation() {
    let h = handler_with(vec![fixture(vec![], vec![expect(b"q", 1, None)])]);
    for reply in [&b""[..], &b"anything"[..], &b"X"[..]] {
        let mut run = admitted(&h, 1);
        drive_one(&mut run, 0, &mut |_| Delivery::Replied(reply.to_vec()));
        assert_eq!(run.runs[0].status, Status::Passed);
    }
    let mut run = admitted(&h, 1);
    drive_one(&mut run, 0, &mut |_| Delivery::TargetError);
    assert_eq!(run.runs[0].status, Status::Failed(Failure::ExecutionFail));
    assert_eq!(run.report().indices, vec![(0, 2)]);
}

#[test]
fn send_failures_are_classified() {
    let h = handler_with(vec![
        fixture(vec![msg(b"p", 1)], vec![expect(b"q", 1, None)]),
        fixture(vec![], vec![expect(b"q", 1, None)]),
    ]);
    let mut run = admitted(&h, 3);
    drive_one(&mut run, 0, &mut |_| Delivery::SendFailed);
    drive_one(&mut run, 1, &mut |_| Delivery::SendFailed);
    assert_eq!(run.runs[0].status, Status::Failed(Failure::PreparationSendFail));
    assert_eq!(run.runs[1].status, Status::Failed(Failure::ExpectationSendFail));
    assert_eq!(run.report().indices, vec![(0, 0), (1, 1)]);
}

#[test]
fn preparation_replies_are_not_validated() {
    let h = handler_with(vec![fixture(vec![msg(b"p", 1)], vec![expect(b"q", 1, Some(b"ok"))])]);
    let mut run = admitted(&h, 2);
    drive_one(&mut run, 0, &mut |p| {
        if p == b"p" {
            Delivery::TargetError
        } else {
            Delivery::Replied(b"ok".to_vec())
        }
    });
    assert_eq!(run.runs[0].status, Status::Passed);
}

#[test]
fn first_failure_stops_the_fixture() {
    let h = handler_with(vec![fixture(
        vec![],
        vec![expect(b"a", 1, Some(b"1")), expect(b"b", 1, Some(b"2"))],
    )]);
    let mut run = admitted(&h, 2);
    let mut sent: Vec<Vec<u8>> = vec![];
    drive_one(&mut run, 0, &mut |p| {
        sent.push(p.to_vec());
        Delivery::Replied(b"wrong".to_vec())
    });
    assert_eq!(sent, vec![b"a".to_vec()]);
    assert_eq!(run.report().indices, vec![(0, 3)]);
}

#[test]
fn aggregation_names_exactly_the_failed_fixtures() {
    let pass = || fixture(vec![], vec![expect(b"q", 1, Some(b"good"))]);
    let fail = || fixture(vec![], vec![expect(b"q", 1, Some(b"never"))]);
    let h = handler_with(vec![pass(), fail(), pass(), fail(), pass()]);
    let mut run = admitted(&h, 5);
    assert!(!run.is_complete());
    // interleave the fixtures: every one sends before any receives
    let mut order: Vec<usize> = vec![4, 0, 3, 1, 2];
    while !run.is_complete() {
        let i = order.remove(0);
        if let Action::Send { .. } = run.next_action(i) {
            run.deliver(i, Delivery::Replied(b"good".to_vec()));
            order.push(i);
        }
    }
    let mut failed: Vec<u32> = run.report().indices.iter().map(|e| e.0).collect();
    failed.sort();
    assert_eq!(failed, vec![1, 3]);
}

#[test]
fn preparation_runs_in_list_order_before_expectations() {
    let h = handler_with(vec![fixture(
        vec![msg(b"init", 1), msg(b"inc", 1)],
        vec![expect(b"get", 1, Some(b"1"))],
    )]);
    let mut run = admitted(&h, 3);
    let mut counter: Option<u8> = None;
    let mut sent: Vec<Vec<u8>> = vec![];
    drive_one(&mut run, 0, &mut |p| {
        sent.push(p.to_vec());
        match p {
            b"init" => {
                counter = Some(0);
                Delivery::Replied(vec![])
            }
            b"inc" => match counter {
                Some(c) => {
                    counter = Some(c + 1);
                    Delivery::Replied(vec![])
                }
                None => Delivery::TargetError,
            },
            _ => Delivery::Replied(vec![b'0' + counter.unwrap_or(0)]),
        }
    });
    assert_eq!(sent, vec![b"init".to_vec(), b"inc".to_vec(), b"get".to_vec()]);
    assert_eq!(run.runs[0].status, Status::Passed);

    // without the initialising step the counter is never set
    let h = handler_with(vec![fixture(vec![msg(b"inc", 1)], vec![expect(b"get", 1, Some(b"1"))])]);
    let mut run = admitted(&h, 2);
    let mut counter: Option<u8> = None;
    drive_one(&mut run, 0, &mut |p| match p {
        b"inc" => match counter {
            Some(c) => {
                counter = Some(c + 1);
                Delivery::Replied(vec![])
            }
            None => Delivery::TargetError,
        },
        _ => Delivery::Replied(vec![b'0' + counter.unwrap_or(0)]),
    });
    assert_eq!(run.report().indices, vec![(0, 3)]);
}

#[test]
fn empty_fixture_passes_at_once() {
    let h = handler_with(vec![fixture(vec![], vec![])]);
    let run = admitted(&h, 0);
    assert!(run.is_complete());
    assert!(matches!(run.next_action(0), Action::Finished));
}

#[test]
fn owner_replacement_is_seen_by_next_command() {
    let mut h = handler_with(vec![]);
    match h.dispatch(Control::GetOwner, 0) {
        Answer::Owner(o) => assert_eq!(o, actor(1)),
        _ => panic!("no owner"),
    }
    assert!(matches!(h.dispatch(Control::ReplaceOwner { new_owner: actor(5) }, 0), Answer::Empty));
    match h.dispatch(Control::GetOwner, 0) {
        Answer::Owner(o) => assert_eq!(o, actor(5)),
        _ => panic!("no owner"),
    }
}

#[test]
fn dispatch_routes_every_command() {
    let mut h = handler_with(vec![]);
    assert!(matches!(h.dispatch(Control::AddFixture { fixture: tagged(1) }, 0), Answer::Empty));
    assert!(matches!(
        h.dispatch(Control::UpdateFixture { index: 0, fixture: tagged(4) }, 0),
        Answer::Done(Ok(()))
    ));
    assert!(matches!(
        h.dispatch(Control::RemoveFixture { index: 3 }, 0),
        Answer::Done(Err(Error::NotFound))
    ));
    match h.dispatch(Control::GetFixtures, 0) {
        Answer::Fixtures(fs) => assert_eq!(fs.iter().map(tag_of).collect::<Vec<u8>>(), vec![4]),
        _ => panic!("no fixtures"),
    }
    match h.dispatch(Control::RunFixtures, 0) {
        Answer::Run(Err(e)) => assert_eq!(e, Error::NotEnoughGas { actual: 0, needed: 1 }),
        _ => panic!("run admitted without gas"),
    }
    assert!(matches!(h.dispatch(Control::RunFixtures, 1), Answer::Run(Ok(_))));
    assert!(matches!(h.dispatch(Control::ClearFixtures, 0), Answer::Empty));
    assert!(h.get_fixtures().is_empty());
    assert!(Reply::none().payload.is_none());
}
