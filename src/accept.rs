use vstd::prelude::*;
use crate::peer::PeerId;
use crate::codec::{InitConnection, InitMessage, encode_init, serialize_init_connection};

verus! {

/// Why an accept task ended without handing a connection upward.
#[derive(Clone, Copy, Debug, PartialEq, Eq, Structural)]
pub enum AcceptConnectionError {
    /// The connector refused or the tick budget ran out.
    ConnectionFailed,
    /// The listener's feedback receiver is gone.
    PendingRejectSenderError,
    /// The `Accept` frame could not be sent on the new channel.
    SendInitConnectionError,
    /// The upward sink is closed.
    SendConnPairError,
    /// The timer refused a tick stream.
    RequestTimerStreamError,
}

/// Where an accept task stands.
#[derive(Clone, Copy, Debug, PartialEq, Eq, Structural)]
pub enum AcceptPhase {
    AwaitConnectTimer,
    AwaitConnect,
    AwaitAcceptSent,
    AwaitKeepaliveTimer,
    AwaitDelivery,
    /// The peer is being handed back to the listener for rejection; the task then fails with the error.
    AwaitFeedback(AcceptConnectionError),
    /// The connection was delivered upward.
    Succeeded,
    /// The task ended with this error.
    Failed(AcceptConnectionError),
}

/// The answer to the task's last action.
#[derive(Clone, Copy, Debug, PartialEq, Eq, Structural)]
pub enum AcceptEvent {
    /// The timer granted (`true`) or refused a tick stream.
    Timer(bool),
    /// The timed connect gave a channel (`true`) or none.
    Connect(bool),
    /// The `Accept` frame was sent (`true`) or the send failed.
    AcceptSent(bool),
    /// The wrapped connection was delivered upward (`true`) or the sink was closed.
    Delivered(bool),
    /// The peer was handed to the listener's feedback channel (`true`) or it was closed.
    Feedback(bool),
}

/// What the task asks its driver to do next.
#[derive(Debug)]
pub enum AcceptAction {
    /// Ask the timer for a tick stream.
    RequestTimer,
    /// Connect to the relay, with a budget of this many ticks.
    Connect(usize),
    /// Send this frame on the new channel.
    SendAccept(Vec<u8>),
    /// Wrap the channel in a keepalive layer of this many ticks and deliver it with the peer.
    Deliver(PeerId, usize),
    /// Hand this peer back to the listener, which tells the relay to reject it.
    SendFeedback(PeerId),
    /// The task is over, with this result.
    Finish(Result<(), AcceptConnectionError>),
}

/// The mathematical value of an `AcceptAction`.
pub enum AcceptCommand {
    RequestTimer,
    Connect(nat),
    SendAccept(Seq<u8>),
    Deliver(Seq<u8>, nat),
    SendFeedback(Seq<u8>),
    Finish(Result<(), AcceptConnectionError>),
}

impl View for AcceptAction {
    type V = AcceptCommand;

    open spec fn view(&self) -> AcceptCommand {
        match self {
            AcceptAction::RequestTimer => AcceptCommand::RequestTimer,
            AcceptAction::Connect(t) => AcceptCommand::Connect(*t as nat),
            AcceptAction::SendAccept(f) => AcceptCommand::SendAccept(f@),
            AcceptAction::Deliver(p, t) => AcceptCommand::Deliver(p@, *t as nat),
            AcceptAction::SendFeedback(p) => AcceptCommand::SendFeedback(p@),
            AcceptAction::Finish(r) => AcceptCommand::Finish(*r),
        }
    }
}

/// The mathematical value of an accept task. `delivered` records that the
/// connection reached the upward sink, `fed_back` that the peer was handed
/// back to the listener.
pub struct AcceptState {
    pub peer: Seq<u8>,
    pub conn_timeout_ticks: nat,
    pub keepalive_ticks: nat,
    pub phase: AcceptPhase,
    pub delivered: bool,
    pub fed_back: bool,
}

/// Which answer the task is waiting for in each phase.
pub open spec fn accept_expects(phase: AcceptPhase, ev: AcceptEvent) -> bool {
    match phase {
        AcceptPhase::AwaitConnectTimer => ev is Timer,
        AcceptPhase::AwaitConnect => ev is Connect,
        AcceptPhase::AwaitAcceptSent => ev is AcceptSent,
        AcceptPhase::AwaitKeepaliveTimer => ev is Timer,
        AcceptPhase::AwaitDelivery => ev is Delivered,
        AcceptPhase::AwaitFeedback(_) => ev is Feedback,
        AcceptPhase::Succeeded => false,
        AcceptPhase::Failed(_) => false,
    }
}

/// The state after a failure that the relay must hear of: the peer goes back to the listener.
pub open spec fn accept_fail(s: AcceptState, e: AcceptConnectionError) -> (AcceptState, AcceptCommand) {
    (AcceptState { phase: AcceptPhase::AwaitFeedback(e), fed_back: true, ..s }, AcceptCommand::SendFeedback(s.peer))
}

/// One step of an accept task: connect within the budget, claim the peer
/// with an `Accept` frame, take a keepalive tick stream, deliver upward. A
/// failure before delivery hands the peer back for rejection; a closed
/// upward sink ends the task with nothing handed back.
pub open spec fn accept_step(s: AcceptState, ev: AcceptEvent) -> (AcceptState, AcceptCommand) {
    match (s.phase, ev) {
        (AcceptPhase::AwaitConnectTimer, AcceptEvent::Timer(ok)) => if ok {
            (AcceptState { phase: AcceptPhase::AwaitConnect, ..s }, AcceptCommand::Connect(s.conn_timeout_ticks))
        } else {
            accept_fail(s, AcceptConnectionError::RequestTimerStreamError)
        },
        (AcceptPhase::AwaitConnect, AcceptEvent::Connect(ok)) => if ok {
            (AcceptState { phase: AcceptPhase::AwaitAcceptSent, ..s },
             AcceptCommand::SendAccept(encode_init(InitMessage::Accept(s.peer))))
        } else {
            accept_fail(s, AcceptConnectionError::ConnectionFailed)
        },
        (AcceptPhase::AwaitAcceptSent, AcceptEvent::AcceptSent(ok)) => if ok {
            (AcceptState { phase: AcceptPhase::AwaitKeepaliveTimer, ..s }, AcceptCommand::RequestTimer)
        } else {
            accept_fail(s, AcceptConnectionError::SendInitConnectionError)
        },
        (AcceptPhase::AwaitKeepaliveTimer, AcceptEvent::Timer(ok)) => if ok {
            (AcceptState { phase: AcceptPhase::AwaitDelivery, ..s }, AcceptCommand::Deliver(s.peer, s.keepalive_ticks))
        } else {
            accept_fail(s, AcceptConnectionError::RequestTimerStreamError)
        },
        (AcceptPhase::AwaitDelivery, AcceptEvent::Delivered(ok)) => if ok {
            (AcceptState { phase: AcceptPhase::Succeeded, delivered: true, ..s }, AcceptCommand::Finish(Ok(())))
        } else {
            let e = AcceptConnectionError::SendConnPairError;
            (AcceptState { phase: AcceptPhase::Failed(e), ..s }, AcceptCommand::Finish(Err(e)))
        },
        (AcceptPhase::AwaitFeedback(e), AcceptEvent::Feedback(ok)) => {
            let e2 = if ok { e } else { AcceptConnectionError::PendingRejectSenderError };
            (AcceptState { phase: AcceptPhase::Failed(e2), ..s }, AcceptCommand::Finish(Err(e2)))
        },
        _ => (s, AcceptCommand::Finish(Err(AcceptConnectionError::PendingRejectSenderError))),
    }
}

/// The state of a fresh accept task for `peer`.
pub open spec fn accept_initial(peer: Seq<u8>, conn_timeout_ticks: nat, keepalive_ticks: nat) -> AcceptState {
    AcceptState {
        peer,
        conn_timeout_ticks,
        keepalive_ticks,
        phase: AcceptPhase::AwaitConnectTimer,
        delivered: false,
        fed_back: false,
    }
}

/// A one-shot task that claims one incoming peer on a new data channel.
pub struct AcceptTask {
    peer: PeerId,
    conn_timeout_ticks: usize,
    keepalive_ticks: usize,
    phase: AcceptPhase,
    delivered: bool,
    fed_back: bool,
}

impl View for AcceptTask {
    type V = AcceptState;

    closed spec fn view(&self) -> AcceptState {
        AcceptState {
            peer: self.peer@,
            conn_timeout_ticks: self.conn_timeout_ticks as nat,
            keepalive_ticks: self.keepalive_ticks as nat,
            phase: self.phase,
            delivered: self.delivered,
            fed_back: self.fed_back,
        }
    }
}

/// Starts accepting `peer`: the task first asks for a tick stream.
pub fn accept_connection(peer: PeerId, conn_timeout_ticks: usize, keepalive_ticks: usize) -> (r: (AcceptTask, AcceptAction))
    ensures
        r.0@ == accept_initial(peer@, conn_timeout_ticks as nat, keepalive_ticks as nat),
        r.1@ == AcceptCommand::RequestTimer,
{
    let task = AcceptTask {
        peer,
        conn_timeout_ticks,
        keepalive_ticks,
        phase: AcceptPhase::AwaitConnectTimer,
        delivered: false,
        fed_back: false,
    };
    (task, AcceptAction::RequestTimer)
}

impl AcceptTask {
    pub fn phase(&self) -> (r: AcceptPhase)
        ensures
            r == self@.phase,
    {
        self.phase
    }

    pub fn peer(&self) -> (r: PeerId)
        ensures
            r@ == self@.peer,
    {
        self.peer
    }

    /// Whether the task is waiting for `ev`.
    pub fn expects(&self, ev: AcceptEvent) -> (r: bool)
        ensures
            r == accept_expects(self@.phase, ev),
    {
        match (self.phase, ev) {
            (AcceptPhase::AwaitConnectTimer, AcceptEvent::Timer(_)) => true,
            (AcceptPhase::AwaitConnect, AcceptEvent::Connect(_)) => true,
            (AcceptPhase::AwaitAcceptSent, AcceptEvent::AcceptSent(_)) => true,
            (AcceptPhase::AwaitKeepaliveTimer, AcceptEvent::Timer(_)) => true,
            (AcceptPhase::AwaitDelivery, AcceptEvent::Delivered(_)) => true,
            (AcceptPhase::AwaitFeedback(_), AcceptEvent::Feedback(_)) => true,
            _ => false,
        }
    }

    fn fail(&mut self, e: AcceptConnectionError) -> (r: AcceptAction)
        ensures
            (final(self)@, r@) == accept_fail(old(self)@, e),
    {
        self.phase = AcceptPhase::AwaitFeedback(e);
        self.fed_back = true;
        AcceptAction::SendFeedback(self.peer)
    }

    /// Takes the answer to the last action and returns the next one.
    pub fn step(&mut self, ev: AcceptEvent) -> (r: AcceptAction)
        requires
            accept_expects(old(self)@.phase, ev),
        ensures
            (final(self)@, r@) == accept_step(old(self)@, ev),
    {
        match (self.phase, ev) {
            (AcceptPhase::AwaitConnectTimer, AcceptEvent::Timer(ok)) => if ok {
                self.phase = AcceptPhase::AwaitConnect;
                AcceptAction::Connect(self.conn_timeout_ticks)
            } else {
                self.fail(AcceptConnectionError::RequestTimerStreamError)
            },
            (AcceptPhase::AwaitConnect, AcceptEvent::Connect(ok)) => if ok {
                self.phase = AcceptPhase::AwaitAcceptSent;
                AcceptAction::SendAccept(serialize_init_connection(&InitConnection::Accept(self.peer)))
            } else {
                self.fail(AcceptConnectionError::ConnectionFailed)
            },
            (AcceptPhase::AwaitAcceptSent, AcceptEvent::AcceptSent(ok)) => if ok {
                self.phase = AcceptPhase::AwaitKeepaliveTimer;
                AcceptAction::RequestTimer
            } else {
                self.fail(AcceptConnectionError::SendInitConnectionError)
            },
            (AcceptPhase::AwaitKeepaliveTimer, AcceptEvent::Timer(ok)) => if ok {
                self.phase = AcceptPhase::AwaitDelivery;
                AcceptAction::Deliver(self.peer, self.keepalive_ticks)
            } else {
                self.fail(AcceptConnectionError::RequestTimerStreamError)
            },
            (AcceptPhase::AwaitDelivery, AcceptEvent::Delivered(ok)) => if ok {
                self.phase = AcceptPhase::Succeeded;
                self.delivered = true;
                AcceptAction::Finish(Ok(()))
            } else {
                let e = AcceptConnectionError::SendConnPairError;
                self.phase = AcceptPhase::Failed(e);
                AcceptAction::Finish(Err(e))
            },
            (AcceptPhase::AwaitFeedback(e), AcceptEvent::Feedback(ok)) => {
                let e2 = if ok { e } else { AcceptConnectionError::PendingRejectSenderError };
                self.phase = AcceptPhase::Failed(e2);
                AcceptAction::Finish(Err(e2))
            },
            _ => AcceptAction::Finish(Err(AcceptConnectionError::PendingRejectSenderError)),
        }
    }
}

/// The state after answering an accept task with `evs`, one by one, up to the
/// first answer it was not waiting for.
pub open spec fn accept_trace(s: AcceptState, evs: Seq<AcceptEvent>) -> AcceptState
    decreases evs.len(),
{
    if evs.len() == 0 || !accept_expects(s.phase, evs[0]) {
        s
    } else {
        accept_trace(accept_step(s, evs[0]).0, evs.drop_first())
    }
}

/// What every reachable state of an accept task satisfies.
pub open spec fn accept_inv(s: AcceptState) -> bool {
    !(s.delivered && s.fed_back) && match s.phase {
        AcceptPhase::AwaitFeedback(e) => s.fed_back && e != AcceptConnectionError::SendConnPairError,
        AcceptPhase::Succeeded => s.delivered,
        AcceptPhase::Failed(e) => if e == AcceptConnectionError::SendConnPairError {
            !s.delivered && !s.fed_back
        } else {
            s.fed_back
        },
        _ => !s.delivered && !s.fed_back,
    }
}

proof fn lemma_accept_inv_step(s: AcceptState, ev: AcceptEvent)
    requires
        accept_inv(s),
        accept_expects(s.phase, ev),
    ensures
        accept_inv(accept_step(s, ev).0),
        s.fed_back ==> accept_step(s, ev).0.fed_back,
{
    match s.phase {
        AcceptPhase::AwaitFeedback(e) => {
            assert(accept_step(s, ev).0.fed_back);
        },
        _ => {},
    }
}

proof fn lemma_accept_inv_trace(s: AcceptState, evs: Seq<AcceptEvent>)
    requires
        accept_inv(s),
    ensures
        accept_inv(accept_trace(s, evs)),
        s.fed_back ==> accept_trace(s, evs).fed_back,
    decreases evs.len(),
{
    if evs.len() > 0 && accept_expects(s.phase, evs[0]) {
        lemma_accept_inv_step(s, evs[0]);
        lemma_accept_inv_trace(accept_step(s, evs[0]).0, evs.drop_first());
    }
}

/// Whatever answers an accept task gets, once it has ended otherwise than on
/// a closed upward sink, exactly one of two things happened: its connection
/// was delivered upward, or its peer was handed back to the listener. It
/// succeeds exactly when the connection was delivered.
pub proof fn lemma_accept_delivers_or_feeds_back(peer: Seq<u8>, conn_timeout_ticks: nat, keepalive_ticks: nat, evs: Seq<AcceptEvent>)
    ensures
        ({
            let s = accept_trace(accept_initial(peer, conn_timeout_ticks, keepalive_ticks), evs);
            &&& (s.phase is Succeeded || (s.phase is Failed && s.phase->Failed_0 != AcceptConnectionError::SendConnPairError))
                ==> s.delivered != s.fed_back
            &&& s.phase is Succeeded <==> s.delivered
        }),
{
    lemma_accept_inv_trace(accept_initial(peer, conn_timeout_ticks, keepalive_ticks), evs);
}

/// Once an accept task has handed its peer back to the listener, no answer
/// can make it deliver a connection upward.
pub proof fn lemma_accept_no_delivery_after_feedback(peer: Seq<u8>, conn_timeout_ticks: nat, keepalive_ticks: nat, evs: Seq<AcceptEvent>, more: Seq<AcceptEvent>)
    requires
        accept_trace(accept_initial(peer, conn_timeout_ticks, keepalive_ticks), evs).fed_back,
    ensures
        ({
            let s = accept_trace(accept_initial(peer, conn_timeout_ticks, keepalive_ticks), evs);
            let t = accept_trace(s, more);
            t.fed_back && !t.delivered
        }),
{
    let s0 = accept_initial(peer, conn_timeout_ticks, keepalive_ticks);
    lemma_accept_inv_trace(s0, evs);
    lemma_accept_inv_trace(accept_trace(s0, evs), more);
}

} // verus!
