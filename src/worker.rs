//! The cross-chain query worker, as a state machine. Each call of `step`
//! takes the outcome of the last outside action (a command drawn from the
//! queue, the queried chain's answers, the connection lookup on the origin
//! chain, the submission) and says what to do next. The caller performs the
//! actions and feeds their outcomes back, one tick at a time.
use vstd::prelude::*;

use crate::query::{QueryRequest, QueryResponse};

verus! {

/// The type of the message that answers a query on the origin chain.
pub const MSG_SUBMIT_QUERY_RESPONSE: &'static str = "/stride.interchainquery.v1.MsgSubmitQueryResponse";

/// The worker's fixed configuration.
#[derive(Clone, Debug, PartialEq, Eq)]
pub struct CrossChainQuery {
    /// The connection that the responses refer to, on the origin chain.
    pub connection_id: String,
    /// A label for diagnostics.
    pub short_name: String,
}

/// An event of the origin chain, as far as this worker cares.
#[derive(Clone, Debug, PartialEq, Eq)]
pub enum ChainEvent {
    /// A cross-chain query packet, read as a query request.
    CrossChainQuery(QueryRequest),
    /// Any other event.
    Other,
}

/// A command from the relay engine.
#[derive(Clone, Debug, PartialEq, Eq)]
pub enum WorkerCmd {
    IbcEvents { batch: Vec<ChainEvent> },
    NewBlock { height: u64 },
    ClearPendingPackets,
}

/// The outcome of what the worker asked for last.
#[derive(Debug)]
pub enum WorkerEvent {
    /// A tick: the command drawn from the queue, if there was one.
    Tick(Option<WorkerCmd>),
    /// The queried chain's answers to a dispatch, or `None` where it failed.
    Dispatched(Option<Vec<QueryResponse>>),
    /// The origin chain's signer once the connection was found, or `None`
    /// where the lookup failed.
    ConnectionResolved(Option<String>),
    /// Whether the submission succeeded.
    Submitted(bool),
}

/// A message of the origin chain that carries one response.
#[derive(Clone, Debug, PartialEq, Eq)]
pub struct ResponseMsg {
    pub type_url: String,
    pub signer: String,
    pub response: QueryResponse,
}

/// A batch of messages, tagged for tracking.
#[derive(Clone, Debug, PartialEq, Eq)]
pub struct TrackedMsgs {
    pub msgs: Vec<ResponseMsg>,
    pub tracking_id: u128,
}

/// What the caller is to do next.
#[derive(Debug)]
pub enum WorkerAction {
    /// Nothing until the next tick.
    Wait,
    /// Ask the queried chain to run these queries, in one batch.
    Dispatch(Vec<QueryRequest>),
    /// Look up this connection on the origin chain, at the latest height.
    ResolveConnection(String),
    /// Submit this batch to the origin chain as one transaction.
    Submit(TrackedMsgs),
    /// The worker has stopped for good.
    Stop,
}

/// Where the worker stands within a tick.
#[derive(Debug)]
pub enum Phase {
    Ready,
    Dispatching,
    Resolving(Vec<QueryResponse>),
    Submitting,
    Stopped,
}

#[derive(Debug)]
pub struct CrossChainQueryWorker {
    pub descriptor: CrossChainQuery,
    pub phase: Phase,
}

/// The query requests among `events`, in order.
pub open spec fn queries_in(events: Seq<ChainEvent>) -> Seq<QueryRequest>
    decreases events.len(),
{
    if events.len() == 0 {
        Seq::empty()
    } else {
        let rest = queries_in(events.drop_last());
        match events.last() {
            ChainEvent::CrossChainQuery(q) => rest.push(q),
            ChainEvent::Other => rest,
        }
    }
}

/// Whether `m` answers with `r`, signed by `signer`.
pub open spec fn is_response_msg(m: ResponseMsg, signer: String, r: QueryResponse) -> bool {
    &&& m.type_url@ == MSG_SUBMIT_QUERY_RESPONSE@
    &&& m.signer == signer
    &&& m.response == r
}

/// Whether `id` is a random identifier: version four, RFC 4122 variant.
pub open spec fn is_random_uuid(id: u128) -> bool {
    &&& (id >> 76u128) & 0xfu128 == 4
    &&& (id >> 62u128) & 0x3u128 == 2
}

/// Relies on uuid's Uuid::new_v4, which draws random bits and sets the
/// version and variant fields; read as its 128-bit big-endian value.
#[verifier::external_body]
fn new_tracking_id() -> (r: u128)
    ensures
        is_random_uuid(r),
{
    uuid::Uuid::new_v4().as_u128()
}

/// What one step of the worker does: from worker `w` and event `e` to
/// worker `w2` and action `a`.
pub open spec fn step_spec(
    w: CrossChainQueryWorker,
    e: WorkerEvent,
    w2: CrossChainQueryWorker,
    a: WorkerAction,
) -> bool {
    &&& w2.descriptor == w.descriptor
    &&& match (w.phase, e) {
        (Phase::Stopped, _) => w2.phase is Stopped && a is Stop,
        (Phase::Ready, WorkerEvent::Tick(Some(WorkerCmd::IbcEvents { batch }))) => {
            let qs = queries_in(batch@);
            if qs.len() == 0 {
                w2.phase is Ready && a is Wait
            } else {
                w2.phase is Dispatching && (a matches WorkerAction::Dispatch(v) && v@ == qs)
            }
        },
        (Phase::Ready, WorkerEvent::Tick(_)) => w2.phase is Ready && a is Wait,
        (Phase::Dispatching, WorkerEvent::Dispatched(None)) => w2.phase is Ready && a is Wait,
        (Phase::Dispatching, WorkerEvent::Dispatched(Some(rs))) => {
            &&& w2.phase == Phase::Resolving(rs)
            &&& a == WorkerAction::ResolveConnection(w.descriptor.connection_id)
        },
        (Phase::Resolving(_), WorkerEvent::ConnectionResolved(None)) => w2.phase is Stopped
            && a is Stop,
        (Phase::Resolving(rs), WorkerEvent::ConnectionResolved(Some(signer))) => {
            &&& w2.phase is Submitting
            &&& (a matches WorkerAction::Submit(t) && {
                &&& t.msgs.len() == rs.len()
                &&& forall|i: int|
                    0 <= i < rs.len() ==> is_response_msg(
                        #[trigger] t.msgs@[i],
                        signer,
                        rs@[i],
                    )
                &&& is_random_uuid(t.tracking_id)
            })
        },
        (Phase::Submitting, WorkerEvent::Submitted(_)) => w2.phase is Ready && a is Wait,
        _ => w2 == w && a is Wait,
    }
}

/// A batch with no query request in it dispatches nothing and submits
/// nothing: the worker stays ready and waits.
pub proof fn lemma_no_queries_no_dispatch(
    w: CrossChainQueryWorker,
    batch: Vec<ChainEvent>,
    w2: CrossChainQueryWorker,
    a: WorkerAction,
)
    requires
        w.phase is Ready,
        queries_in(batch@).len() == 0,
        step_spec(w, WorkerEvent::Tick(Some(WorkerCmd::IbcEvents { batch })), w2, a),
    ensures
        w2.phase is Ready,
        a is Wait,
{
}

/// A failed dispatch drops the batch: the worker keeps running, ready for
/// the next tick, and submits nothing.
pub proof fn lemma_dispatch_failure_keeps_running(
    w: CrossChainQueryWorker,
    w2: CrossChainQueryWorker,
    a: WorkerAction,
)
    requires
        w.phase is Dispatching,
        step_spec(w, WorkerEvent::Dispatched(None), w2, a),
    ensures
        w2.phase is Ready,
        a is Wait,
{
}

/// A failed connection lookup stops the worker, and a stopped worker stays
/// stopped whatever comes next: no later tick draws a command.
pub proof fn lemma_connection_failure_stops(
    w: CrossChainQueryWorker,
    w2: CrossChainQueryWorker,
    a: WorkerAction,
    e: WorkerEvent,
    w3: CrossChainQueryWorker,
    a3: WorkerAction,
)
    requires
        w.phase is Resolving,
        step_spec(w, WorkerEvent::ConnectionResolved(None), w2, a),
        step_spec(w2, e, w3, a3),
    ensures
        w2.phase is Stopped,
        a is Stop,
        w3.phase is Stopped,
        a3 is Stop,
{
}

/// A failed submission is not fatal: the worker keeps running, ready for the
/// next tick.
pub proof fn lemma_submission_failure_keeps_running(
    w: CrossChainQueryWorker,
    w2: CrossChainQueryWorker,
    a: WorkerAction,
)
    requires
        w.phase is Submitting,
        step_spec(w, WorkerEvent::Submitted(false), w2, a),
    ensures
        w2.phase is Ready,
        a is Wait,
{
}

impl QueryRequest {
    /// A copy of the request.
    pub fn duplicate(&self) -> (r: QueryRequest)
        ensures
            r == *self,
    {
        QueryRequest {
            chain_id: self.chain_id.clone(),
            query_id: self.query_id.clone(),
            connection_id: self.connection_id.clone(),
            query_type: self.query_type.clone(),
            height: self.height,
            payload: self.payload.clone(),
        }
    }
}

/// The query requests among `events`, in order; other events are dropped.
pub fn queries_of(events: &Vec<ChainEvent>) -> (r: Vec<QueryRequest>)
    ensures
        r@ == queries_in(events@),
{
    let mut out: Vec<QueryRequest> = Vec::new();
    let mut i: usize = 0;
    while i < events.len()
        invariant
            i <= events.len(),
            out@ == queries_in(events@.take(i as int)),
        decreases events.len() - i,
    {
        assert(events@.take(i + 1).drop_last() == events@.take(i as int));
        match &events[i] {
            ChainEvent::CrossChainQuery(q) => out.push(q.duplicate()),
            ChainEvent::Other => {},
        }
        i += 1;
    }
    assert(events@.take(events.len() as int) == events@);
    out
}

/// One message for each response, in order, each signed by `signer`.
pub fn response_msgs(signer: &String, responses: Vec<QueryResponse>) -> (r: Vec<ResponseMsg>)
    ensures
        r.len() == responses.len(),
        forall|i: int|
            0 <= i < responses.len() ==> is_response_msg(#[trigger] r@[i], *signer, responses@[i]),
{
    let ghost all = responses@;
    let mut rest = responses;
    let mut out: Vec<ResponseMsg> = Vec::new();
    while rest.len() > 0
        invariant
            out.len() + rest.len() == all.len(),
            rest@ == all.skip(out.len() as int),
            forall|i: int| 0 <= i < out.len() ==> is_response_msg(#[trigger] out@[i], *signer, all[i]),
        decreases rest.len(),
    {
        let r = rest.remove(0);
        out.push(
            ResponseMsg {
                type_url: String::from_str(MSG_SUBMIT_QUERY_RESPONSE),
                signer: signer.clone(),
                response: r,
            },
        );
    }
    out
}

impl CrossChainQueryWorker {
    /// A worker for `descriptor`, running and ready for its first tick.
    pub fn new(descriptor: CrossChainQuery) -> (r: CrossChainQueryWorker)
        ensures
            r.descriptor == descriptor,
            r.phase is Ready,
    {
        CrossChainQueryWorker { descriptor, phase: Phase::Ready }
    }

    /// Whether the worker has stopped for good.
    pub fn is_stopped(&self) -> (r: bool)
        ensures
            r == self.phase is Stopped,
    {
        match self.phase {
            Phase::Stopped => true,
            _ => false,
        }
    }

    /// Takes the outcome of the last action and gives the next one. An
    /// event that does not fit the phase changes nothing.
    pub fn step(self, event: WorkerEvent) -> (r: (CrossChainQueryWorker, WorkerAction))
        ensures
            step_spec(self, event, r.0, r.1),
    {
        let CrossChainQueryWorker { descriptor, phase } = self;
        let (phase, action) = match phase {
            Phase::Stopped => (Phase::Stopped, WorkerAction::Stop),
            Phase::Ready => match event {
                WorkerEvent::Tick(Some(WorkerCmd::IbcEvents { batch })) => {
                    let queries = queries_of(&batch);
                    if queries.len() == 0 {
                        (Phase::Ready, WorkerAction::Wait)
                    } else {
                        (Phase::Dispatching, WorkerAction::Dispatch(queries))
                    }
                },
                _ => (Phase::Ready, WorkerAction::Wait),
            },
            Phase::Dispatching => match event {
                WorkerEvent::Dispatched(None) => (Phase::Ready, WorkerAction::Wait),
                WorkerEvent::Dispatched(Some(rs)) => {
                    let id = descriptor.connection_id.clone();
                    (Phase::Resolving(rs), WorkerAction::ResolveConnection(id))
                },
                _ => (Phase::Dispatching, WorkerAction::Wait),
            },
            Phase::Resolving(rs) => match event {
                WorkerEvent::ConnectionResolved(None) => (Phase::Stopped, WorkerAction::Stop),
                WorkerEvent::ConnectionResolved(Some(signer)) => {
                    let msgs = response_msgs(&signer, rs);
                    let tracking_id = new_tracking_id();
                    (Phase::Submitting, WorkerAction::Submit(TrackedMsgs { msgs, tracking_id }))
                },
                _ => (Phase::Resolving(rs), WorkerAction::Wait),
            },
            Phase::Submitting => match event {
                WorkerEvent::Submitted(_) => (Phase::Ready, WorkerAction::Wait),
                _ => (Phase::Submitting, WorkerAction::Wait),
            },
        };
        (CrossChainQueryWorker { descriptor, phase }, action)
    }
}

} // verus!
