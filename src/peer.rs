use vstd::prelude::*;

verus! {

/// Number of bytes in a peer identity.
pub const PEER_ID_LEN: usize = 32;

/// The public identity of a peer: a fixed number of opaque bytes.
#[derive(Clone, Copy, Debug)]
pub struct PeerId {
    pub bytes: [u8; 32],
}

impl View for PeerId {
    type V = Seq<u8>;

    open spec fn view(&self) -> Seq<u8> {
        self.bytes@
    }
}

impl PeerId {
    pub fn new(bytes: [u8; 32]) -> (r: PeerId)
        ensures
            r@ == bytes@,
    {
        PeerId { bytes }
    }

    /// Whether two identities hold the same bytes.
    pub fn same(&self, other: &PeerId) -> (r: bool)
        ensures
            r == (self@ == other@),
    {
        let mut i: usize = 0;
        while i < PEER_ID_LEN
            invariant
                self@.len() == PEER_ID_LEN,
                other@.len() == PEER_ID_LEN,
                i <= PEER_ID_LEN,
                forall|j: int| 0 <= j < i ==> self@[j] == other@[j],
            decreases PEER_ID_LEN - i,
        {
            if self.bytes[i] != other.bytes[i] {
                return false;
            }
            i = i + 1;
        }
        assert(self@ =~= other@);
        true
    }

    /// Builds an identity from the `PEER_ID_LEN` bytes of `b` that start at `start`.
    pub fn from_slice_at(b: &Vec<u8>, start: usize) -> (r: PeerId)
        requires
            start + PEER_ID_LEN <= b@.len(),
        ensures
            r@ == b@.subrange(start as int, start + PEER_ID_LEN),
    {
        let n: usize = b.len();
        let mut a: [u8; 32] = [0u8; 32];
        let mut i: usize = 0;
        while i < PEER_ID_LEN
            invariant
                n == b@.len(),
                start + PEER_ID_LEN <= n,
                a@.len() == PEER_ID_LEN,
                i <= PEER_ID_LEN,
                forall|j: int| 0 <= j < i ==> a@[j] == b@[start + j],
            decreases PEER_ID_LEN - i,
        {
            a[i] = b[start + i];
            i = i + 1;
        }
        assert(a@ =~= b@.subrange(start as int, start + PEER_ID_LEN));
        PeerId { bytes: a }
    }

    /// Appends the identity's bytes to `out`.
    pub fn write_to(&self, out: &mut Vec<u8>)
        ensures
            final(out)@ == old(out)@ + self@,
    {
        let mut i: usize = 0;
        while i < PEER_ID_LEN
            invariant
                self@.len() == PEER_ID_LEN,
                i <= PEER_ID_LEN,
                out@ == old(out)@ + self@.subrange(0, i as int),
            decreases PEER_ID_LEN - i,
        {
            out.push(self.bytes[i]);
            assert(self@.subrange(0, i + 1) =~= self@.subrange(0, i as int).push(self@[i as int]));
            i = i + 1;
        }
        assert(self@.subrange(0, PEER_ID_LEN as int) =~= self@);
    }
}

impl PartialEq for PeerId {
    fn eq(&self, other: &PeerId) -> (r: bool) {
        self.same(other)
    }
}

impl vstd::std_specs::cmp::PartialEqSpecImpl for PeerId {
    open spec fn obeys_eq_spec() -> bool {
        true
    }

    open spec fn eq_spec(&self, other: &PeerId) -> bool {
        self@ == other@
    }
}

impl Eq for PeerId {
}

} // verus!
