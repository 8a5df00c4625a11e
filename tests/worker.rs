use icq_relayer::query::{QueryRequest, QueryResponse};
use icq_relayer::worker::{
    queries_of, response_msgs, ChainEvent, CrossChainQuery, CrossChainQueryWorker, Phase,
    WorkerAction, WorkerCmd, WorkerEvent, MSG_SUBMIT_QUERY_RESPONSE,
};

fn descriptor() -> CrossChainQuery {
    CrossChainQuery { connection_id: "connection-0".to_string(), short_name: "icq".to_string() }
}

fn request(id: &str) -> QueryRequest {
    QueryRequest {
        chain_id: "gaia-1".to_string(),
        query_id: id.to_string(),
        connection_id: "connection-0".to_string(),
        query_type: "/store/bank/key".to_string(),
        height: 12,
        payload: "0011".to_string(),
    }
}

fn response(id: &str) -> QueryResponse {
    QueryResponse {
        chain_id: "gaia-1".to_string(),
        query_id: id.to_string(),
        result: "aaaa".to_string(),
        height: "12".to_string(),
        proof: None,
    }
}

fn batch(events: Vec<ChainEvent>) -> WorkerEvent {
    WorkerEvent::Tick(Some(WorkerCmd::IbcEvents { batch: events }))
}

fn at(phase: Phase) -> CrossChainQueryWorker {
    CrossChainQueryWorker { descriptor: descriptor(), phase }
}

#[test]
fn filter_keeps_query_events_in_order() {
    let events = vec![
        ChainEvent::Other,
        ChainEvent::CrossChainQuery(request("a")),
        ChainEvent::Other,
        ChainEvent::CrossChainQuery(request("b")),
    ];
    assert_eq!(queries_of(&events), vec![request("a"), request("b")]);
    assert!(queries_of(&vec![]).is_empty());
}

#[test]
fn messages_wrap_each_response() {
    let msgs = response_msgs(&"cosmos1signer".to_string(), vec![response("a"), response("b")]);
    assert_eq!(msgs.len(), 2);
    assert_eq!(msgs[0].type_url, "/stride.interchainquery.v1.MsgSubmitQueryResponse");
    assert_eq!(msgs[0].type_url, MSG_SUBMIT_QUERY_RESPONSE);
    assert_eq!(msgs[0].signer, "cosmos1signer");
    assert_eq!(msgs[0].response, response("a"));
    assert_eq!(msgs[1].response, response("b"));
}

#[test]
fn empty_queue_does_nothing() {
    let (w, a) = CrossChainQueryWorker::new(descriptor()).step(WorkerEvent::Tick(None));
    assert!(matches!(w.phase, Phase::Ready));
    assert!(matches!(a, WorkerAction::Wait));
}

#[test]
fn other_commands_do_nothing() {
    let w = CrossChainQueryWorker::new(descriptor());
    let (w, a) = w.step(WorkerEvent::Tick(Some(WorkerCmd::NewBlock { height: 5 })));
    assert!(matches!(w.phase, Phase::Ready));
    assert!(matches!(a, WorkerAction::Wait));
    let (w, a) = w.step(WorkerEvent::Tick(Some(WorkerCmd::ClearPendingPackets)));
    assert!(matches!(w.phase, Phase::Ready));
    assert!(matches!(a, WorkerAction::Wait));
}

#[test]
fn batch_without_queries_dispatches_nothing() {
    let w = CrossChainQueryWorker::new(descriptor());
    let (w, a) = w.step(batch(vec![ChainEvent::Other, ChainEvent::Other]));
    assert!(matches!(w.phase, Phase::Ready));
    assert!(matches!(a, WorkerAction::Wait));
    let (w, a) = w.step(batch(vec![]));
    assert!(matches!(w.phase, Phase::Ready));
    assert!(matches!(a, WorkerAction::Wait));
}

#[test]
fn dispatch_failure_keeps_running() {
    let (w, a) = at(Phase::Dispatching).step(WorkerEvent::Dispatched(None));
    assert!(matches!(w.phase, Phase::Ready));
    assert!(matches!(a, WorkerAction::Wait));
    assert!(!w.is_stopped());
}

#[test]
fn connection_failure_stops_for_good() {
    let (w, a) = at(Phase::Resolving(vec![response("a")])).step(WorkerEvent::ConnectionResolved(None));
    assert!(w.is_stopped());
    assert!(matches!(a, WorkerAction::Stop));
    let (w, a) = w.step(batch(vec![ChainEvent::CrossChainQuery(request("a"))]));
    assert!(w.is_stopped());
    assert!(matches!(a, WorkerAction::Stop));
}

#[test]
fn submission_failure_keeps_running() {
    let (w, a) = at(Phase::Submitting).step(WorkerEvent::Submitted(false));
    assert!(matches!(w.phase, Phase::Ready));
    assert!(matches!(a, WorkerAction::Wait));
    let (w, a) = w.step(batch(vec![ChainEvent::CrossChainQuery(request("b"))]));
    assert!(matches!(w.phase, Phase::Dispatching));
    assert!(matches!(a, WorkerAction::Dispatch(_)));
}

#[test]
fn event_out_of_turn_changes_nothing() {
    let (w, a) = at(Phase::Dispatching).step(WorkerEvent::Submitted(true));
    assert!(matches!(w.phase, Phase::Dispatching));
    assert!(matches!(a, WorkerAction::Wait));
}

#[test]
fn full_tick_submits_one_tagged_batch() {
    let w = CrossChainQueryWorker::new(descriptor());
    let (w, a) = w.step(batch(vec![
        ChainEvent::Other,
        ChainEvent::CrossChainQuery(request("a")),
        ChainEvent::CrossChainQuery(request("b")),
    ]));
    match a {
        WorkerAction::Dispatch(qs) => assert_eq!(qs, vec![request("a"), request("b")]),
        other => panic!("expected a dispatch, got {:?}", other),
    }
    let (w, a) = w.step(WorkerEvent::Dispatched(Some(vec![response("a"), response("b")])));
    match a {
        WorkerAction::ResolveConnection(id) => assert_eq!(id, "connection-0"),
        other => panic!("expected a lookup, got {:?}", other),
    }
    let (w, a) = w.step(WorkerEvent::ConnectionResolved(Some("cosmos1signer".to_string())));
    let first_id = match a {
        WorkerAction::Submit(t) => {
            assert_eq!(t.msgs.len(), 2);
            assert_eq!(t.msgs[1].response, response("b"));
            assert_eq!(t.msgs[0].signer, "cosmos1signer");
            assert_eq!((t.tracking_id >> 76) & 0xf, 4);
            assert_eq!((t.tracking_id >> 62) & 0x3, 2);
            t.tracking_id
        }
        other => panic!("expected a submission, got {:?}", other),
    };
    let (w, a) = w.step(WorkerEvent::Submitted(true));
    assert!(matches!(w.phase, Phase::Ready));
    assert!(matches!(a, WorkerAction::Wait));

    let (w, _) = w.step(batch(vec![ChainEvent::CrossChainQuery(request("c"))]));
    let (w, _) = w.step(WorkerEvent::Dispatched(Some(vec![response("c")])));
    let (_, a) = w.step(WorkerEvent::ConnectionResolved(Some("cosmos1signer".to_string())));
    match a {
        WorkerAction::Submit(t) => assert_ne!(t.tracking_id, first_id),
        other => panic!("expected a submission, got {:?}", other),
    }
}
