use vstd::prelude::*;
use crate::peer::PeerId;
use crate::access::{AccessControl, AccessControlOp, apply_access_op};
use crate::codec::{
    InitConnection, InitMessage, decode_init, lemma_init_round_trip, lemma_peer_record_round_trip, IncomingConnection, RejectConnection, encode_init,
    encode_peer_record, decode_peer_record, serialize_init_connection,
    serialize_reject_connection, deserialize_incoming_connection,
};

verus! {

/// Why the listener stopped. Each of these ends it for good.
#[derive(Clone, Copy, Debug, PartialEq, Eq, Structural)]
pub enum ClientListenerError {
    RequestTimerStreamError,
    SendInitConnectionError,
    ConnectionFailure,
    TimerClosed,
    AccessControlError,
    AccessControlClosed,
    SendToServerError,
    ServerClosed,
    SpawnError,
}

/// One item of the listener's merged event stream.
#[derive(Clone, Copy, Debug)]
pub enum ClientListenerEvent {
    /// A change to the access set arrived.
    AccessControlOp(AccessControlOp),
    /// The stream of access changes ended.
    AccessControlClosed,
    /// The relay announced an incoming peer.
    ServerMessage(IncomingConnection),
    /// The relay's stream ended, or sent a frame that does not decode.
    ServerClosed,
    /// An accept task failed and handed its peer back.
    PendingReject(PeerId),
}

/// The event that a frame from the relay becomes: a malformed frame ends the relay's stream.
pub fn server_frame_event(frame: &Vec<u8>) -> (r: ClientListenerEvent)
    ensures
        match decode_peer_record(frame@) {
            Some(p) => r matches ClientListenerEvent::ServerMessage(m) && m.peer@ == p,
            None => r is ServerClosed,
        },
{
    match deserialize_incoming_connection(frame) {
        Some(m) => ClientListenerEvent::ServerMessage(m),
        None => ClientListenerEvent::ServerClosed,
    }
}

/// Where the listener stands.
#[derive(Clone, Copy, Debug, PartialEq, Eq, Structural)]
pub enum ListenerPhase {
    AwaitTimer,
    AwaitControl,
    AwaitListenSent,
    Running,
    AwaitRejectSent,
    AwaitSpawn,
    Terminated(ClientListenerError),
}

/// The answer to the listener's last action.
#[derive(Clone, Copy, Debug)]
pub enum ListenerInput {
    /// The timer granted (`true`) or refused a tick stream.
    Timer(bool),
    /// The control connection to the relay opened (`true`) or was refused.
    Control(bool),
    /// The `Listen` frame was sent (`true`) or the send failed.
    ListenSent(bool),
    /// The next item of the merged event stream.
    Event(ClientListenerEvent),
    /// A reject frame was sent (`true`) or the send failed.
    RejectSent(bool),
    /// An accept task was spawned (`true`) or the spawner refused.
    Spawned(bool),
}

/// What the listener asks its driver to do next.
#[derive(Debug)]
pub enum ListenerAction {
    /// Ask the timer for a tick stream.
    RequestTimer,
    /// Open the control connection to the relay.
    ConnectControl,
    /// Send this frame on the control connection.
    SendControl(Vec<u8>),
    /// Spawn an accept task for this peer, with these connect and keepalive budgets.
    SpawnAccept(PeerId, usize, usize),
    /// Hand over the next event of the merged stream.
    NextEvent,
    /// Stop with this error.
    Terminate(ClientListenerError),
}

/// The mathematical value of a `ListenerAction`.
pub enum ListenerCommand {
    RequestTimer,
    ConnectControl,
    SendControl(Seq<u8>),
    SpawnAccept(Seq<u8>, nat, nat),
    NextEvent,
    Terminate(ClientListenerError),
}

impl View for ListenerAction {
    type V = ListenerCommand;

    open spec fn view(&self) -> ListenerCommand {
        match self {
            ListenerAction::RequestTimer => ListenerCommand::RequestTimer,
            ListenerAction::ConnectControl => ListenerCommand::ConnectControl,
            ListenerAction::SendControl(f) => ListenerCommand::SendControl(f@),
            ListenerAction::SpawnAccept(p, c, k) => ListenerCommand::SpawnAccept(p@, *c as nat, *k as nat),
            ListenerAction::NextEvent => ListenerCommand::NextEvent,
            ListenerAction::Terminate(e) => ListenerCommand::Terminate(*e),
        }
    }
}

/// The mathematical value of a listener. `control_frames` are the frames
/// it has sent on the control connection, oldest first.
pub struct ListenerState {
    pub access: Set<Seq<u8>>,
    pub phase: ListenerPhase,
    pub conn_timeout_ticks: nat,
    pub keepalive_ticks: nat,
    pub control_frames: Seq<Seq<u8>>,
}

/// Which answer the listener is waiting for in each phase.
pub open spec fn listener_expects(phase: ListenerPhase, input: ListenerInput) -> bool {
    match phase {
        ListenerPhase::AwaitTimer => input is Timer,
        ListenerPhase::AwaitControl => input is Control,
        ListenerPhase::AwaitListenSent => input is ListenSent,
        ListenerPhase::Running => input is Event,
        ListenerPhase::AwaitRejectSent => input is RejectSent,
        ListenerPhase::AwaitSpawn => input is Spawned,
        ListenerPhase::Terminated(_) => false,
    }
}

pub open spec fn listener_stop(s: ListenerState, e: ClientListenerError) -> (ListenerState, ListenerCommand) {
    (ListenerState { phase: ListenerPhase::Terminated(e), ..s }, ListenerCommand::Terminate(e))
}

pub open spec fn listener_send_reject(s: ListenerState, p: Seq<u8>) -> (ListenerState, ListenerCommand) {
    let f = encode_peer_record(p);
    (ListenerState { phase: ListenerPhase::AwaitRejectSent, control_frames: s.control_frames.push(f), ..s },
     ListenerCommand::SendControl(f))
}

pub open spec fn listener_resume(s: ListenerState) -> (ListenerState, ListenerCommand) {
    (ListenerState { phase: ListenerPhase::Running, ..s }, ListenerCommand::NextEvent)
}

/// One event of the running listener: apply access changes, turn away a
/// disallowed peer on the control connection, spawn an accept task for an
/// allowed one, reject a peer whose accept failed, stop when either input
/// stream ends.
pub open spec fn listener_on_event(s: ListenerState, ev: ClientListenerEvent) -> (ListenerState, ListenerCommand) {
    match ev {
        ClientListenerEvent::AccessControlOp(op) =>
            (ListenerState { access: apply_access_op(s.access, op), ..s }, ListenerCommand::NextEvent),
        ClientListenerEvent::AccessControlClosed => listener_stop(s, ClientListenerError::AccessControlClosed),
        ClientListenerEvent::ServerMessage(m) => if s.access.contains(m.peer@) {
            (ListenerState { phase: ListenerPhase::AwaitSpawn, ..s },
             ListenerCommand::SpawnAccept(m.peer@, s.conn_timeout_ticks, s.keepalive_ticks))
        } else {
            listener_send_reject(s, m.peer@)
        },
        ClientListenerEvent::ServerClosed => listener_stop(s, ClientListenerError::ServerClosed),
        ClientListenerEvent::PendingReject(p) => listener_send_reject(s, p@),
    }
}

/// One step of the listener: start up (tick stream, control connection,
/// `Listen` frame), then handle events one at a time.
pub open spec fn listener_step(s: ListenerState, input: ListenerInput) -> (ListenerState, ListenerCommand) {
    match (s.phase, input) {
        (ListenerPhase::AwaitTimer, ListenerInput::Timer(ok)) => if ok {
            (ListenerState { phase: ListenerPhase::AwaitControl, ..s }, ListenerCommand::ConnectControl)
        } else {
            listener_stop(s, ClientListenerError::RequestTimerStreamError)
        },
        (ListenerPhase::AwaitControl, ListenerInput::Control(ok)) => if ok {
            let f = encode_init(InitMessage::Listen);
            (ListenerState { phase: ListenerPhase::AwaitListenSent, control_frames: s.control_frames.push(f), ..s },
             ListenerCommand::SendControl(f))
        } else {
            listener_stop(s, ClientListenerError::ConnectionFailure)
        },
        (ListenerPhase::AwaitListenSent, ListenerInput::ListenSent(ok)) => if ok {
            listener_resume(s)
        } else {
            listener_stop(s, ClientListenerError::SendInitConnectionError)
        },
        (ListenerPhase::Running, ListenerInput::Event(ev)) => listener_on_event(s, ev),
        (ListenerPhase::AwaitRejectSent, ListenerInput::RejectSent(ok)) => if ok {
            listener_resume(s)
        } else {
            listener_stop(s, ClientListenerError::SendToServerError)
        },
        (ListenerPhase::AwaitSpawn, ListenerInput::Spawned(ok)) => if ok {
            listener_resume(s)
        } else {
            listener_stop(s, ClientListenerError::SpawnError)
        },
        _ => (s, ListenerCommand::NextEvent),
    }
}

/// The state of a listener that has done nothing yet.
pub open spec fn listener_initial(access: Set<Seq<u8>>, conn_timeout_ticks: nat, keepalive_ticks: nat) -> ListenerState {
    ListenerState {
        access,
        phase: ListenerPhase::AwaitTimer,
        conn_timeout_ticks,
        keepalive_ticks,
        control_frames: Seq::empty(),
    }
}

/// The listener's control loop, as a machine that its driver feeds.
pub struct Listener {
    access: AccessControl,
    phase: ListenerPhase,
    conn_timeout_ticks: usize,
    keepalive_ticks: usize,
    control_frames: Ghost<Seq<Seq<u8>>>,
}

impl View for Listener {
    type V = ListenerState;

    closed spec fn view(&self) -> ListenerState {
        ListenerState {
            access: self.access@,
            phase: self.phase,
            conn_timeout_ticks: self.conn_timeout_ticks as nat,
            keepalive_ticks: self.keepalive_ticks as nat,
            control_frames: self.control_frames@,
        }
    }
}

/// Starts a listener over `access`: it first asks for a tick stream.
pub fn client_listener(access: AccessControl, conn_timeout_ticks: usize, keepalive_ticks: usize) -> (r: (Listener, ListenerAction))
    ensures
        r.0@ == listener_initial(access@, conn_timeout_ticks as nat, keepalive_ticks as nat),
        r.1@ == ListenerCommand::RequestTimer,
{
    let l = Listener {
        access,
        phase: ListenerPhase::AwaitTimer,
        conn_timeout_ticks,
        keepalive_ticks,
        control_frames: Ghost(Seq::empty()),
    };
    (l, ListenerAction::RequestTimer)
}

impl Listener {
    pub fn phase(&self) -> (r: ListenerPhase)
        ensures
            r == self@.phase,
    {
        self.phase
    }

    pub fn access_control(&self) -> (r: &AccessControl)
        ensures
            r@ == self@.access,
    {
        &self.access
    }

    /// Whether the listener is waiting for `input`.
    pub fn expects(&self, input: ListenerInput) -> (r: bool)
        ensures
            r == listener_expects(self@.phase, input),
    {
        match (self.phase, input) {
            (ListenerPhase::AwaitTimer, ListenerInput::Timer(_)) => true,
            (ListenerPhase::AwaitControl, ListenerInput::Control(_)) => true,
            (ListenerPhase::AwaitListenSent, ListenerInput::ListenSent(_)) => true,
            (ListenerPhase::Running, ListenerInput::Event(_)) => true,
            (ListenerPhase::AwaitRejectSent, ListenerInput::RejectSent(_)) => true,
            (ListenerPhase::AwaitSpawn, ListenerInput::Spawned(_)) => true,
            _ => false,
        }
    }

    fn stop(&mut self, e: ClientListenerError) -> (r: ListenerAction)
        ensures
            (final(self)@, r@) == listener_stop(old(self)@, e),
    {
        self.phase = ListenerPhase::Terminated(e);
        ListenerAction::Terminate(e)
    }

    fn send_reject(&mut self, p: PeerId) -> (r: ListenerAction)
        ensures
            (final(self)@, r@) == listener_send_reject(old(self)@, p@),
    {
        let f = serialize_reject_connection(&RejectConnection { peer: p });
        self.control_frames = Ghost(self.control_frames@.push(f@));
        self.phase = ListenerPhase::AwaitRejectSent;
        ListenerAction::SendControl(f)
    }

    fn resume(&mut self) -> (r: ListenerAction)
        ensures
            (final(self)@, r@) == listener_resume(old(self)@),
    {
        self.phase = ListenerPhase::Running;
        ListenerAction::NextEvent
    }

    fn on_event(&mut self, ev: ClientListenerEvent) -> (r: ListenerAction)
        ensures
            (final(self)@, r@) == listener_on_event(old(self)@, ev),
    {
        match ev {
            ClientListenerEvent::AccessControlOp(op) => {
                match self.access.apply_op(op) {
                    Ok(()) => ListenerAction::NextEvent,
                    Err(_) => self.stop(ClientListenerError::AccessControlError),
                }
            },
            ClientListenerEvent::AccessControlClosed => self.stop(ClientListenerError::AccessControlClosed),
            ClientListenerEvent::ServerMessage(m) => {
                if self.access.is_allowed(&m.peer) {
                    self.phase = ListenerPhase::AwaitSpawn;
                    ListenerAction::SpawnAccept(m.peer, self.conn_timeout_ticks, self.keepalive_ticks)
                } else {
                    self.send_reject(m.peer)
                }
            },
            ClientListenerEvent::ServerClosed => self.stop(ClientListenerError::ServerClosed),
            ClientListenerEvent::PendingReject(p) => self.send_reject(p),
        }
    }

    /// Takes the answer to the last action and returns the next one.
    pub fn step(&mut self, input: ListenerInput) -> (r: ListenerAction)
        requires
            listener_expects(old(self)@.phase, input),
        ensures
            (final(self)@, r@) == listener_step(old(self)@, input),
    {
        match (self.phase, input) {
            (ListenerPhase::AwaitTimer, ListenerInput::Timer(ok)) => if ok {
                self.phase = ListenerPhase::AwaitControl;
                ListenerAction::ConnectControl
            } else {
                self.stop(ClientListenerError::RequestTimerStreamError)
            },
            (ListenerPhase::AwaitControl, ListenerInput::Control(ok)) => if ok {
                let f = serialize_init_connection(&InitConnection::Listen);
                self.control_frames = Ghost(self.control_frames@.push(f@));
                self.phase = ListenerPhase::AwaitListenSent;
                ListenerAction::SendControl(f)
            } else {
                self.stop(ClientListenerError::ConnectionFailure)
            },
            (ListenerPhase::AwaitListenSent, ListenerInput::ListenSent(ok)) => if ok {
                self.resume()
            } else {
                self.stop(ClientListenerError::SendInitConnectionError)
            },
            (ListenerPhase::Running, ListenerInput::Event(ev)) => self.on_event(ev),
            (ListenerPhase::AwaitRejectSent, ListenerInput::RejectSent(ok)) => if ok {
                self.resume()
            } else {
                self.stop(ClientListenerError::SendToServerError)
            },
            (ListenerPhase::AwaitSpawn, ListenerInput::Spawned(ok)) => if ok {
                self.resume()
            } else {
                self.stop(ClientListenerError::SpawnError)
            },
            _ => ListenerAction::NextEvent,
        }
    }
}

/// The state after feeding a listener `inputs`, one by one, up to the first
/// input it was not waiting for.
pub open spec fn listener_trace(s: ListenerState, inputs: Seq<ListenerInput>) -> ListenerState
    decreases inputs.len(),
{
    if inputs.len() == 0 || !listener_expects(s.phase, inputs[0]) {
        s
    } else {
        listener_trace(listener_step(s, inputs[0]).0, inputs.drop_first())
    }
}

/// What every reachable listener state satisfies: before the control
/// connection opens nothing has been sent on it, and afterwards its first
/// frame is the `Listen` frame.
pub open spec fn listener_inv(s: ListenerState) -> bool {
    &&& (s.phase is AwaitTimer || s.phase is AwaitControl) ==> s.control_frames.len() == 0
    &&& !(s.phase is AwaitTimer || s.phase is AwaitControl || s.phase is Terminated) ==> s.control_frames.len() > 0
    &&& s.control_frames.len() > 0 ==> s.control_frames[0] == encode_init(InitMessage::Listen)
}

proof fn lemma_listener_inv_step(s: ListenerState, input: ListenerInput)
    requires
        listener_inv(s),
        listener_expects(s.phase, input),
    ensures
        listener_inv(listener_step(s, input).0),
{
    let t = listener_step(s, input).0;
    if t.control_frames.len() > 0 && s.control_frames.len() > 0 {
        assert(t.control_frames.len() == s.control_frames.len() || t.control_frames == s.control_frames.push(t.control_frames.last()));
        assert(t.control_frames[0] == s.control_frames[0]);
    }
}

proof fn lemma_listener_inv_trace(s: ListenerState, inputs: Seq<ListenerInput>)
    requires
        listener_inv(s),
    ensures
        listener_inv(listener_trace(s, inputs)),
    decreases inputs.len(),
{
    if inputs.len() > 0 && listener_expects(s.phase, inputs[0]) {
        lemma_listener_inv_step(s, inputs[0]);
        lemma_listener_inv_trace(listener_step(s, inputs[0]).0, inputs.drop_first());
    }
}

/// Whatever a listener is fed, the first frame it ever sends on the control
/// connection decodes to `Listen`.
pub proof fn lemma_first_control_frame_is_listen(access: Set<Seq<u8>>, conn_timeout_ticks: nat, keepalive_ticks: nat, inputs: Seq<ListenerInput>)
    ensures
        ({
            let s = listener_trace(listener_initial(access, conn_timeout_ticks, keepalive_ticks), inputs);
            s.control_frames.len() > 0 ==> decode_init(s.control_frames[0]) == Some(InitMessage::Listen)
        }),
{
    lemma_listener_inv_trace(listener_initial(access, conn_timeout_ticks, keepalive_ticks), inputs);
    lemma_init_round_trip(InitMessage::Listen, Seq::empty());
}

/// When the running listener is told of a peer it does not allow, it sends a
/// frame that decodes to that peer's rejection, and handles no other event
/// until that send has been answered.
pub proof fn lemma_disallowed_peer_rejected(s: ListenerState, m: IncomingConnection)
    requires
        s.phase is Running,
        !s.access.contains(m.peer@),
    ensures
        ({
            let (t, c) = listener_step(s, ListenerInput::Event(ClientListenerEvent::ServerMessage(m)));
            &&& c matches ListenerCommand::SendControl(f) && decode_peer_record(f) == Some(m.peer@)
            &&& t.control_frames == s.control_frames.push(encode_peer_record(m.peer@))
            &&& forall|i: ListenerInput| #[trigger] listener_expects(t.phase, i) ==> i is RejectSent
        }),
{
    lemma_peer_record_round_trip(m.peer@, Seq::empty());
}

} // verus!
