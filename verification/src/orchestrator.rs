//! Orchestration of one whole run: scan, connect, discover, subscribe,
//! then a consume loop over the notification stream, then teardown.
//!
//! The orchestrator is a state machine from event to action. The
//! embedding application performs each returned action against the
//! transport (dial, discover, subscribe, await a notification, tear
//! down) and reports what happened as the next event. Decode failures
//! are reported per notification and never end the loop; every run that
//! dialled the transport tears the connection down exactly once, whether
//! it ended by stream end, by cancellation, or by a setup failure.

use vstd::prelude::*;

use crate::connection::CharacteristicDescriptor;
use crate::connection::ConnState;
use crate::connection::Connection;
use crate::connection::FailureKind;
use crate::connection::has_notify_char;
use crate::connection::is_first_notify_char;
use crate::decoder::DecodeError;
use crate::decoder::spec_decode;
use crate::decoder::decode;
use crate::scanner::DeviceDescriptor;
use crate::scanner::is_first_match;
use crate::scanner::no_match;
use crate::scanner::select_device;
use crate::uuids::HEART_RATE_MEASUREMENT_UUID;
use crate::uuids::HEART_RATE_SERVICE_UUID;

verus! {

/// Why a run ended without reaching or finishing the consume loop
/// cleanly.
#[derive(Clone, Copy, Debug, PartialEq, Eq, Structural)]
pub enum RunError {
    /// The scan window elapsed with no matching advertiser.
    DeviceNotFound,
    /// A setup step from connect through subscribe failed.
    Setup(FailureKind),
}

/// Where a run stands: which answer from the transport it is waiting
/// for.
#[derive(Clone, Copy, Debug, PartialEq, Eq, Structural)]
pub enum Phase {
    /// The scan window is open; waiting for the observed descriptors.
    AwaitScan,
    /// A dial was requested; waiting for the transport's answer.
    AwaitConnect,
    /// Service discovery was requested; waiting for the table.
    AwaitDiscovery,
    /// A subscribe call was requested; waiting for the transport's
    /// answer.
    AwaitSubscribe,
    /// Subscribed; consuming the notification stream.
    Streaming,
    /// Teardown was requested; waiting for it to complete.
    AwaitTeardown,
    /// The run is over.
    Done,
}

/// What the transport reported back for the action last issued.
pub enum Event {
    /// The scan window elapsed; every peripheral observed during it.
    ScanCompleted(Vec<DeviceDescriptor>),
    /// Whether the transport acknowledged the dial.
    ConnectResult(bool),
    /// The characteristic table, or `None` when enumeration failed.
    DiscoveryResult(Option<Vec<CharacteristicDescriptor>>),
    /// Whether the transport enabled notifications.
    SubscribeResult(bool),
    /// One pushed notification payload.
    Notification(Vec<u8>),
    /// The peripheral ended the stream (asynchronous disconnect).
    StreamEnded,
    /// The operator asked the run to stop.
    Cancelled,
    /// The requested teardown finished.
    TeardownComplete,
}

/// What the application must do next against the transport or its sink.
#[derive(Clone, Copy, Debug, PartialEq, Eq, Structural)]
pub enum Action {
    /// Dial the peripheral with this handle.
    Connect(usize),
    /// Enumerate the connected peripheral's characteristics.
    DiscoverServices,
    /// Subscribe to the characteristic at this index of the reported
    /// table.
    Subscribe(usize),
    /// Suspend on the notification stream for the next payload.
    AwaitNotification,
    /// Deliver a decoded reading to the caller's sink.
    EmitReading(u16),
    /// Report a malformed notification; the loop goes on.
    ReportDecodeError(DecodeError),
    /// Tear the transport connection down, swallowing teardown errors.
    Disconnect,
    /// The run is over, cleanly on `None`, else with this cause.
    Finish(Option<RunError>),
}

/// The one orchestrator of a run: the phase, the single connection, and
/// the bookkeeping that pins down how often the transport was dialled
/// and torn down.
pub struct Orchestrator {
    pub phase: Phase,
    pub conn: Connection,
    /// Whether a `Connect` action was ever issued in this run.
    pub connect_issued: bool,
    /// Whether a `Disconnect` action was ever issued in this run.
    pub disconnect_issued: bool,
    /// The cause the final `Finish` action will carry, if any.
    pub failure: Option<RunError>,
}

impl Orchestrator {
    /// The phase, the connection state and the bookkeeping always agree.
    pub open spec fn wf(self) -> bool {
        &&& self.conn.wf()
        &&& match self.phase {
            Phase::AwaitScan => self.conn.state is Disconnected && !self.connect_issued
                && !self.disconnect_issued && self.failure is None,
            Phase::AwaitConnect => self.conn.state is Connecting && self.connect_issued
                && !self.disconnect_issued && self.failure is None,
            Phase::AwaitDiscovery => self.conn.state is Connected && self.connect_issued
                && !self.disconnect_issued && self.failure is None,
            Phase::AwaitSubscribe => self.conn.state is ServicesDiscovered && self.connect_issued
                && !self.disconnect_issued && self.failure is None,
            Phase::Streaming => self.conn.state is Subscribed && self.connect_issued
                && !self.disconnect_issued && self.failure is None,
            Phase::AwaitTeardown => self.conn.state is Disconnected && self.connect_issued
                && self.disconnect_issued,
            Phase::Done => self.conn.state is Disconnected && self.disconnect_issued
                == self.connect_issued,
        }
    }

    /// A run that has done nothing yet: the scan window is open.
    pub open spec fn is_init(self) -> bool {
        &&& self.phase is AwaitScan
        &&& self.conn.state is Disconnected
        &&& self.conn.characteristics@.len() == 0
        &&& !self.connect_issued
        &&& !self.disconnect_issued
        &&& self.failure is None
    }

    /// Begin a run. The application then performs the scan, waits the
    /// full window, and reports every observed descriptor.
    pub fn new() -> (o: Orchestrator)
        ensures
            o.wf(),
            o.is_init(),
    {
        Orchestrator {
            phase: Phase::AwaitScan,
            conn: Connection::new(0),
            connect_issued: false,
            disconnect_issued: false,
            failure: None,
        }
    }

    fn begin_teardown(&mut self, failure: Option<RunError>) -> (act: Action)
        requires
            old(self).conn.wf(),
            old(self).connect_issued,
            !old(self).disconnect_issued,
        ensures
            teardown_step(*old(self), *final(self), act, failure),
    {
        self.failure = failure;
        self.conn.disconnect();
        self.disconnect_issued = true;
        self.phase = Phase::AwaitTeardown;
        Action::Disconnect
    }

    /// Advance the run by one event and say what to do next.
    pub fn step(&mut self, ev: Event) -> (act: Action)
        requires
            old(self).wf(),
            accepts(*old(self), ev),
        ensures
            final(self).wf(),
            next(*old(self), ev, *final(self), act),
    {
        match (self.phase, ev) {
            (Phase::AwaitScan, Event::ScanCompleted(devices)) => {
                match select_device(&devices, HEART_RATE_SERVICE_UUID) {
                    Some(i) => {
                        let handle = devices[i].handle;
                        self.conn = Connection::new(handle);
                        self.conn.start_connect();
                        self.connect_issued = true;
                        self.phase = Phase::AwaitConnect;
                        Action::Connect(handle)
                    },
                    None => {
                        self.failure = Some(RunError::DeviceNotFound);
                        self.phase = Phase::Done;
                        Action::Finish(Some(RunError::DeviceNotFound))
                    },
                }
            },
            (Phase::AwaitConnect, Event::ConnectResult(ok)) => {
                self.conn.connect_outcome(ok);
                if ok {
                    self.phase = Phase::AwaitDiscovery;
                    Action::DiscoverServices
                } else {
                    self.begin_teardown(Some(RunError::Setup(FailureKind::ConnectionError)))
                }
            },
            (Phase::AwaitDiscovery, Event::DiscoveryResult(result)) => {
                let got_table = result.is_some();
                self.conn.discovery_outcome(result);
                if got_table {
                    match self.conn.subscribe_request(HEART_RATE_MEASUREMENT_UUID) {
                        Some(i) => {
                            self.phase = Phase::AwaitSubscribe;
                            Action::Subscribe(i)
                        },
                        None => {
                            self.begin_teardown(
                                Some(RunError::Setup(FailureKind::CharacteristicUnsupported)),
                            )
                        },
                    }
                } else {
                    self.begin_teardown(Some(RunError::Setup(FailureKind::ServiceDiscoveryError)))
                }
            },
            (Phase::AwaitSubscribe, Event::SubscribeResult(ok)) => {
                self.conn.subscribe_outcome(ok);
                if ok {
                    self.phase = Phase::Streaming;
                    Action::AwaitNotification
                } else {
                    self.begin_teardown(Some(RunError::Setup(FailureKind::SubscriptionError)))
                }
            },
            (Phase::Streaming, Event::Notification(payload)) => {
                match decode(payload.as_slice()) {
                    Ok(reading) => Action::EmitReading(reading.bpm),
                    Err(e) => Action::ReportDecodeError(e),
                }
            },
            (Phase::Streaming, Event::StreamEnded) => self.begin_teardown(None),
            (Phase::Streaming, Event::Cancelled) => self.begin_teardown(None),
            (Phase::AwaitTeardown, Event::TeardownComplete) => {
                self.phase = Phase::Done;
                Action::Finish(self.failure)
            },
            _ => vstd::pervasive::unreached(),
        }
    }
}

/// Which events a run in a given phase can be handed: exactly the answer
/// to the action it last issued, plus stream end and cancellation while
/// streaming.
pub open spec fn accepts(pre: Orchestrator, ev: Event) -> bool {
    match (pre.phase, ev) {
        (Phase::AwaitScan, Event::ScanCompleted(_)) => true,
        (Phase::AwaitConnect, Event::ConnectResult(_)) => true,
        (Phase::AwaitDiscovery, Event::DiscoveryResult(_)) => true,
        (Phase::AwaitSubscribe, Event::SubscribeResult(_)) => true,
        (Phase::Streaming, Event::Notification(_)) => true,
        (Phase::Streaming, Event::StreamEnded) => true,
        (Phase::Streaming, Event::Cancelled) => true,
        (Phase::AwaitTeardown, Event::TeardownComplete) => true,
        _ => false,
    }
}

/// One teardown step: the only way a `Disconnect` action is ever issued.
/// It happens at most once, because it requires the flag still unset and
/// sets it.
pub open spec fn teardown_step(
    pre: Orchestrator,
    post: Orchestrator,
    act: Action,
    failure: Option<RunError>,
) -> bool {
    &&& post.phase is AwaitTeardown
    &&& post.conn.handle == pre.conn.handle
    &&& post.conn.state is Disconnected
    &&& post.conn.characteristics@.len() == 0
    &&& post.connect_issued == pre.connect_issued
    &&& !pre.disconnect_issued
    &&& post.disconnect_issued
    &&& post.failure == failure
    &&& act is Disconnect
}

/// The transition relation of a run: what one `step` call does, for
/// every phase and event it accepts.
pub open spec fn next(pre: Orchestrator, ev: Event, post: Orchestrator, act: Action) -> bool {
    match (pre.phase, ev) {
        (Phase::AwaitScan, Event::ScanCompleted(devices)) => {
            if no_match(devices@, HEART_RATE_SERVICE_UUID) {
                &&& post.phase is Done
                &&& post.conn == pre.conn
                &&& post.connect_issued == pre.connect_issued
                &&& post.disconnect_issued == pre.disconnect_issued
                &&& post.failure == Some(RunError::DeviceNotFound)
                &&& act == Action::Finish(Some(RunError::DeviceNotFound))
            } else {
                &&& post.phase is AwaitConnect
                &&& post.connect_issued
                &&& post.disconnect_issued == pre.disconnect_issued
                &&& post.failure == pre.failure
                &&& post.conn.state is Connecting
                &&& post.conn.characteristics@.len() == 0
                &&& exists|i: int|
                    is_first_match(devices@, HEART_RATE_SERVICE_UUID, i) && post.conn.handle
                        == devices@[i].handle && act == Action::Connect(devices@[i].handle)
            }
        },
        (Phase::AwaitConnect, Event::ConnectResult(ok)) => {
            if ok {
                &&& post.phase is AwaitDiscovery
                &&& post.conn.handle == pre.conn.handle
                &&& post.conn.state is Connected
                &&& post.conn.characteristics@.len() == 0
                &&& post.connect_issued == pre.connect_issued
                &&& post.disconnect_issued == pre.disconnect_issued
                &&& post.failure == pre.failure
                &&& act is DiscoverServices
            } else {
                teardown_step(pre, post, act, Some(RunError::Setup(FailureKind::ConnectionError)))
            }
        },
        (Phase::AwaitDiscovery, Event::DiscoveryResult(result)) => {
            match result {
                Some(cs) => {
                    if has_notify_char(cs@, HEART_RATE_MEASUREMENT_UUID) {
                        &&& post.phase is AwaitSubscribe
                        &&& post.conn.handle == pre.conn.handle
                        &&& post.conn.state is ServicesDiscovered
                        &&& post.conn.characteristics@ == cs@
                        &&& post.connect_issued == pre.connect_issued
                        &&& post.disconnect_issued == pre.disconnect_issued
                        &&& post.failure == pre.failure
                        &&& exists|i: int|
                            is_first_notify_char(cs@, HEART_RATE_MEASUREMENT_UUID, i) && act
                                == Action::Subscribe(i as usize)
                    } else {
                        teardown_step(
                            pre,
                            post,
                            act,
                            Some(RunError::Setup(FailureKind::CharacteristicUnsupported)),
                        )
                    }
                },
                None => teardown_step(
                    pre,
                    post,
                    act,
                    Some(RunError::Setup(FailureKind::ServiceDiscoveryError)),
                ),
            }
        },
        (Phase::AwaitSubscribe, Event::SubscribeResult(ok)) => {
            if ok {
                &&& post.phase is Streaming
                &&& post.conn.handle == pre.conn.handle
                &&& post.conn.state is Subscribed
                &&& post.conn.characteristics == pre.conn.characteristics
                &&& post.connect_issued == pre.connect_issued
                &&& post.disconnect_issued == pre.disconnect_issued
                &&& post.failure == pre.failure
                &&& act is AwaitNotification
            } else {
                teardown_step(pre, post, act, Some(RunError::Setup(FailureKind::SubscriptionError)))
            }
        },
        (Phase::Streaming, Event::Notification(payload)) => {
            &&& post == pre
            &&& act == match spec_decode(payload@) {
                Ok(reading) => Action::EmitReading(reading.bpm),
                Err(e) => Action::ReportDecodeError(e),
            }
        },
        (Phase::Streaming, Event::StreamEnded) => teardown_step(pre, post, act, None),
        (Phase::Streaming, Event::Cancelled) => teardown_step(pre, post, act, None),
        (Phase::AwaitTeardown, Event::TeardownComplete) => {
            &&& post.phase is Done
            &&& post.conn == pre.conn
            &&& post.connect_issued == pre.connect_issued
            &&& post.disconnect_issued == pre.disconnect_issued
            &&& post.failure == pre.failure
            &&& act == Action::Finish(pre.failure)
        },
        _ => false,
    }
}

/// The number of `Disconnect` actions in a run's action sequence.
pub open spec fn count_disconnects(acts: Seq<Action>) -> int
    decreases acts.len(),
{
    if acts.len() == 0 {
        0
    } else {
        count_disconnects(acts.drop_last()) + if acts.last() is Disconnect {
            1int
        } else {
            0int
        }
    }
}

/// The number of `Connect` actions in a run's action sequence.
pub open spec fn count_connects(acts: Seq<Action>) -> int
    decreases acts.len(),
{
    if acts.len() == 0 {
        0
    } else {
        count_connects(acts.drop_last()) + if acts.last() is Connect {
            1int
        } else {
            0int
        }
    }
}

/// A whole run as observed from outside: the states it went through,
/// the events the application handed it, and the actions it issued,
/// starting from a fresh orchestrator with every step related by
/// `next`.
pub open spec fn valid_trace(
    states: Seq<Orchestrator>,
    events: Seq<Event>,
    actions: Seq<Action>,
) -> bool {
    &&& states.len() == events.len() + 1
    &&& actions.len() == events.len()
    &&& states[0].is_init()
    &&& forall|k: int|
        0 <= k < events.len() ==> next(states[k], events[k], states[k + 1], actions[k])
}

/// One step keeps the run well formed, and the bookkeeping flags record
/// exactly whether a `Connect` or a `Disconnect` action was issued: each
/// flag flips to true on the one step that issues its action and never
/// moves otherwise.
pub proof fn lemma_next_preserves(pre: Orchestrator, ev: Event, post: Orchestrator, act: Action)
    requires
        pre.wf(),
        next(pre, ev, post, act),
    ensures
        post.wf(),
        act is Disconnect ==> !pre.disconnect_issued && post.disconnect_issued,
        !(act is Disconnect) ==> post.disconnect_issued == pre.disconnect_issued,
        act is Connect ==> !pre.connect_issued && post.connect_issued,
        !(act is Connect) ==> post.connect_issued == pre.connect_issued,
{
}

/// Along any run, the bookkeeping flags equal the counts of `Connect`
/// and `Disconnect` actions issued so far: both counts stay at zero or
/// one.
pub proof fn lemma_trace_invariant(
    states: Seq<Orchestrator>,
    events: Seq<Event>,
    actions: Seq<Action>,
    k: int,
)
    requires
        valid_trace(states, events, actions),
        0 <= k < states.len(),
    ensures
        states[k].wf(),
        count_disconnects(actions.take(k)) == if states[k].disconnect_issued {
            1int
        } else {
            0int
        },
        count_connects(actions.take(k)) == if states[k].connect_issued {
            1int
        } else {
            0int
        },
    decreases k,
{
    if k == 0 {
        assert(actions.take(0) =~= Seq::<Action>::empty());
    } else {
        lemma_trace_invariant(states, events, actions, k - 1);
        lemma_next_preserves(states[k - 1], events[k - 1], states[k], actions[k - 1]);
        assert(actions.take(k).drop_last() =~= actions.take(k - 1));
        assert(actions.take(k).last() == actions[k - 1]);
    }
}

/// A `Disconnect` action is observed exactly once per run that dialled,
/// and never in a run that did not: over any run, at most one
/// `Disconnect` is issued, never more than one `Connect`, and a run that
/// reaches `Done` has issued exactly one `Disconnect` when it issued a
/// `Connect` and none when it did not — whether it ended by stream end,
/// by cancellation, or by a setup failure.
pub proof fn lemma_disconnect_exactly_once(
    states: Seq<Orchestrator>,
    events: Seq<Event>,
    actions: Seq<Action>,
)
    requires
        valid_trace(states, events, actions),
    ensures
        count_disconnects(actions) <= 1,
        count_connects(actions) <= 1,
        count_disconnects(actions) <= count_connects(actions),
        states.last().phase is Done ==> count_disconnects(actions) == count_connects(actions),
        states.last().phase is Done && states.last().connect_issued ==> count_disconnects(actions)
            == 1,
        states.last().phase is Done && !states.last().connect_issued ==> count_disconnects(actions)
            == 0,
{
    let n = states.len() - 1;
    lemma_trace_invariant(states, events, actions, n);
    assert(actions.take(n) =~= actions);
}

/// A malformed notification never triggers teardown: while streaming, a
/// payload that fails to decode leaves the whole run state unchanged —
/// still streaming, connection untouched — and the issued action is the
/// per-occurrence report, never `Disconnect`.
pub proof fn lemma_decode_error_keeps_streaming(
    pre: Orchestrator,
    payload: Vec<u8>,
    post: Orchestrator,
    act: Action,
)
    requires
        pre.wf(),
        pre.phase is Streaming,
        next(pre, Event::Notification(payload), post, act),
        spec_decode(payload@) is Err,
    ensures
        post == pre,
        post.phase is Streaming,
        !(act is Disconnect),
        act == Action::ReportDecodeError(spec_decode(payload@)->Err_0),
{
}

/// When no observed descriptor advertises the target service, the run
/// ends with `DeviceNotFound` and no connection attempt is ever issued.
pub proof fn lemma_no_match_no_connect(
    pre: Orchestrator,
    devices: Vec<DeviceDescriptor>,
    post: Orchestrator,
    act: Action,
)
    requires
        pre.wf(),
        pre.phase is AwaitScan,
        next(pre, Event::ScanCompleted(devices), post, act),
        no_match(devices@, HEART_RATE_SERVICE_UUID),
    ensures
        post.phase is Done,
        !post.connect_issued,
        post.conn.state is Disconnected,
        act == Action::Finish(Some(RunError::DeviceNotFound)),
{
}

} // verus!
