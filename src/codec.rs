use vstd::prelude::*;
use crate::peer::{PeerId, PEER_ID_LEN};

verus! {

/// Frame tag of `InitConnection::Listen`.
pub const TAG_LISTEN: u8 = 0;
/// Frame tag of `InitConnection::Accept`.
pub const TAG_ACCEPT: u8 = 1;
/// Frame tag of `InitConnection::Reject`.
pub const TAG_REJECT: u8 = 2;

/// First message on a connection to the relay: announce a listener, claim
/// an incoming peer, or turn one away.
#[derive(Clone, Copy, Debug)]
pub enum InitConnection {
    Listen,
    Accept(PeerId),
    Reject(PeerId),
}

/// The mathematical value of an `InitConnection`.
pub enum InitMessage {
    Listen,
    Accept(Seq<u8>),
    Reject(Seq<u8>),
}

impl View for InitConnection {
    type V = InitMessage;

    open spec fn view(&self) -> InitMessage {
        match *self {
            InitConnection::Listen => InitMessage::Listen,
            InitConnection::Accept(p) => InitMessage::Accept(p@),
            InitConnection::Reject(p) => InitMessage::Reject(p@),
        }
    }
}

/// The relay's notice that a peer wants to reach this node.
#[derive(Clone, Copy, Debug)]
pub struct IncomingConnection {
    pub peer: PeerId,
}

/// This node's request, on the control connection, that the relay turn a peer away.
#[derive(Clone, Copy, Debug)]
pub struct RejectConnection {
    pub peer: PeerId,
}

/// A peer identity as a value: exactly `PEER_ID_LEN` bytes.
pub open spec fn valid_peer(p: Seq<u8>) -> bool {
    p.len() == PEER_ID_LEN
}

pub open spec fn valid_init(m: InitMessage) -> bool {
    match m {
        InitMessage::Listen => true,
        InitMessage::Accept(p) => valid_peer(p),
        InitMessage::Reject(p) => valid_peer(p),
    }
}

/// The frame of an init message: a tag byte, then the peer's bytes if it names one.
pub open spec fn encode_init(m: InitMessage) -> Seq<u8> {
    match m {
        InitMessage::Listen => seq![TAG_LISTEN],
        InitMessage::Accept(p) => seq![TAG_ACCEPT] + p,
        InitMessage::Reject(p) => seq![TAG_REJECT] + p,
    }
}

/// The init message a frame holds, if it holds one.
pub open spec fn decode_init(b: Seq<u8>) -> Option<InitMessage> {
    if b.len() == 1 && b[0] == TAG_LISTEN {
        Some(InitMessage::Listen)
    } else if b.len() == 1 + PEER_ID_LEN && b[0] == TAG_ACCEPT {
        Some(InitMessage::Accept(b.subrange(1, b.len() as int)))
    } else if b.len() == 1 + PEER_ID_LEN && b[0] == TAG_REJECT {
        Some(InitMessage::Reject(b.subrange(1, b.len() as int)))
    } else {
        None
    }
}

/// An incoming-connection or reject-connection frame is the peer's bytes alone.
pub open spec fn encode_peer_record(p: Seq<u8>) -> Seq<u8> {
    p
}

pub open spec fn decode_peer_record(b: Seq<u8>) -> Option<Seq<u8>> {
    if b.len() == PEER_ID_LEN {
        Some(b)
    } else {
        None
    }
}

pub fn serialize_init_connection(m: &InitConnection) -> (r: Vec<u8>)
    ensures
        r@ == encode_init(m@),
{
    let mut out: Vec<u8> = Vec::new();
    match m {
        InitConnection::Listen => {
            out.push(TAG_LISTEN);
        },
        InitConnection::Accept(p) => {
            out.push(TAG_ACCEPT);
            p.write_to(&mut out);
        },
        InitConnection::Reject(p) => {
            out.push(TAG_REJECT);
            p.write_to(&mut out);
        },
    }
    assert(out@ =~= encode_init(m@));
    out
}

pub fn deserialize_init_connection(b: &Vec<u8>) -> (r: Option<InitConnection>)
    ensures
        match r {
            Some(m) => decode_init(b@) == Some(m@),
            None => decode_init(b@) is None,
        },
{
    let n: usize = b.len();
    if n == 1 && b[0] == TAG_LISTEN {
        Some(InitConnection::Listen)
    } else if n == 1 + PEER_ID_LEN && b[0] == TAG_ACCEPT {
        Some(InitConnection::Accept(PeerId::from_slice_at(b, 1)))
    } else if n == 1 + PEER_ID_LEN && b[0] == TAG_REJECT {
        Some(InitConnection::Reject(PeerId::from_slice_at(b, 1)))
    } else {
        None
    }
}

fn serialize_peer(p: &PeerId) -> (r: Vec<u8>)
    ensures
        r@ == encode_peer_record(p@),
{
    let mut out: Vec<u8> = Vec::new();
    p.write_to(&mut out);
    assert(out@ =~= p@);
    out
}

fn deserialize_peer(b: &Vec<u8>) -> (r: Option<PeerId>)
    ensures
        match r {
            Some(p) => decode_peer_record(b@) == Some(p@),
            None => decode_peer_record(b@) is None,
        },
{
    if b.len() == PEER_ID_LEN {
        let p = PeerId::from_slice_at(b, 0);
        assert(b@.subrange(0, PEER_ID_LEN as int) =~= b@);
        Some(p)
    } else {
        None
    }
}

pub fn serialize_incoming_connection(m: &IncomingConnection) -> (r: Vec<u8>)
    ensures
        r@ == encode_peer_record(m.peer@),
{
    serialize_peer(&m.peer)
}

pub fn deserialize_incoming_connection(b: &Vec<u8>) -> (r: Option<IncomingConnection>)
    ensures
        match r {
            Some(m) => decode_peer_record(b@) == Some(m.peer@),
            None => decode_peer_record(b@) is None,
        },
{
    match deserialize_peer(b) {
        Some(peer) => Some(IncomingConnection { peer }),
        None => None,
    }
}

pub fn serialize_reject_connection(m: &RejectConnection) -> (r: Vec<u8>)
    ensures
        r@ == encode_peer_record(m.peer@),
{
    serialize_peer(&m.peer)
}

pub fn deserialize_reject_connection(b: &Vec<u8>) -> (r: Option<RejectConnection>)
    ensures
        match r {
            Some(m) => decode_peer_record(b@) == Some(m.peer@),
            None => decode_peer_record(b@) is None,
        },
{
    match deserialize_peer(b) {
        Some(peer) => Some(RejectConnection { peer }),
        None => None,
    }
}

/// Decoding an encoded init message gives the message back, and a frame
/// decodes to a message only if it is that message's encoding.
pub proof fn lemma_init_round_trip(m: InitMessage, b: Seq<u8>)
    requires
        valid_init(m),
    ensures
        decode_init(encode_init(m)) == Some(m),
        decode_init(b) == Some(m) ==> b == encode_init(m),
{
    match m {
        InitMessage::Listen => {},
        InitMessage::Accept(p) => {
            let e = encode_init(m);
            assert(e.subrange(1, e.len() as int) =~= p);
            if decode_init(b) == Some(m) {
                assert(b =~= seq![TAG_ACCEPT] + b.subrange(1, b.len() as int));
            }
        },
        InitMessage::Reject(p) => {
            let e = encode_init(m);
            assert(e.subrange(1, e.len() as int) =~= p);
            if decode_init(b) == Some(m) {
                assert(b =~= seq![TAG_REJECT] + b.subrange(1, b.len() as int));
            }
        },
    }
}

/// The same law for the single-peer records.
pub proof fn lemma_peer_record_round_trip(p: Seq<u8>, b: Seq<u8>)
    requires
        valid_peer(p),
    ensures
        decode_peer_record(encode_peer_record(p)) == Some(p),
        decode_peer_record(b) == Some(p) ==> b == encode_peer_record(p),
{
}

} // verus!
