use vstd::prelude::*;
use crate::peer::PeerId;

verus! {

/// A change to the set of peers that may connect.
#[derive(Clone, Copy, Debug)]
pub enum AccessControlOp {
    Add(PeerId),
    Remove(PeerId),
    Clear,
}

/// A change refused by the access policy.
#[derive(Debug)]
pub struct AccessControlError {}

/// The set after a change: add and remove are idempotent, clear empties it.
pub open spec fn apply_access_op(s: Set<Seq<u8>>, op: AccessControlOp) -> Set<Seq<u8>> {
    match op {
        AccessControlOp::Add(p) => s.insert(p@),
        AccessControlOp::Remove(p) => s.remove(p@),
        AccessControlOp::Clear => Set::empty(),
    }
}

/// The peers currently allowed to connect.
pub struct AccessControl {
    allowed: Vec<PeerId>,
}

impl View for AccessControl {
    type V = Set<Seq<u8>>;

    closed spec fn view(&self) -> Set<Seq<u8>> {
        Set::new(|s: Seq<u8>| exists|i: int| 0 <= i < self.allowed@.len() && self.allowed@[i]@ == s)
    }
}

impl AccessControl {
    pub fn new() -> (r: AccessControl)
        ensures
            r@ == Set::<Seq<u8>>::empty(),
    {
        let r = AccessControl { allowed: Vec::new() };
        assert(r@ =~= Set::<Seq<u8>>::empty());
        r
    }

    fn position(&self, peer: &PeerId) -> (r: Option<usize>)
        ensures
            match r {
                Some(i) => i < self.allowed@.len() && self.allowed@[i as int]@ == peer@,
                None => forall|i: int| 0 <= i < self.allowed@.len() ==> self.allowed@[i]@ != peer@,
            },
    {
        let mut i: usize = 0;
        while i < self.allowed.len()
            invariant
                i <= self.allowed@.len(),
                forall|j: int| 0 <= j < i ==> self.allowed@[j]@ != peer@,
            decreases self.allowed@.len() - i,
        {
            if self.allowed[i].same(peer) {
                return Some(i);
            }
            i = i + 1;
        }
        None
    }

    /// Whether `peer` may connect now.
    pub fn is_allowed(&self, peer: &PeerId) -> (r: bool)
        ensures
            r == self@.contains(peer@),
    {
        match self.position(peer) {
            Some(_) => true,
            None => false,
        }
    }

    /// Applies one change. This policy refuses none.
    pub fn apply_op(&mut self, op: AccessControlOp) -> (r: Result<(), AccessControlError>)
        ensures
            r is Ok,
            final(self)@ == apply_access_op(old(self)@, op),
    {
        match op {
            AccessControlOp::Add(p) => {
                if self.position(&p).is_none() {
                    self.allowed.push(p);
                    assert(self@ =~= old(self)@.insert(p@)) by {
                        assert(self.allowed@[old(self).allowed@.len() as int]@ == p@);
                        assert forall|s: Seq<u8>| old(self)@.contains(s) implies self@.contains(s) by {
                            let i = choose|i: int| 0 <= i < old(self).allowed@.len() && old(self).allowed@[i]@ == s;
                            assert(self.allowed@[i] == old(self).allowed@[i]);
                        }
                    }
                } else {
                    assert(self@ =~= old(self)@.insert(p@));
                }
            },
            AccessControlOp::Remove(p) => {
                let mut kept: Vec<PeerId> = Vec::new();
                let mut i: usize = 0;
                while i < self.allowed.len()
                    invariant
                        self == old(self),
                        i <= self.allowed@.len(),
                        forall|k: int| 0 <= k < kept@.len() ==> kept@[k]@ != p@,
                        forall|k: int| 0 <= k < kept@.len() ==>
                            exists|j: int| 0 <= j < i && self.allowed@[j]@ == #[trigger] kept@[k]@,
                        forall|j: int| 0 <= j < i && self.allowed@[j]@ != p@ ==>
                            exists|k: int| 0 <= k < kept@.len() && kept@[k]@ == #[trigger] self.allowed@[j]@,
                    decreases self.allowed@.len() - i,
                {
                    let q = self.allowed[i];
                    let ghost kept_before = kept@;
                    if !q.same(&p) {
                        kept.push(q);
                        assert(kept@[kept@.len() - 1]@ == self.allowed@[i as int]@);
                    }
                    assert forall|j: int| 0 <= j < i + 1 && self.allowed@[j]@ != p@ implies
                        exists|k: int| 0 <= k < kept@.len() && kept@[k]@ == #[trigger] self.allowed@[j]@ by {
                        if j < i {
                            let k = choose|k: int| 0 <= k < kept_before.len() && kept_before[k]@ == self.allowed@[j]@;
                            assert(kept@[k] == kept_before[k]);
                        } else {
                            assert(kept@[kept@.len() - 1]@ == self.allowed@[j]@);
                        }
                    }
                    i = i + 1;
                }
                let ghost before = self@;
                self.allowed = kept;
                assert(self@ =~= before.remove(p@)) by {
                    assert forall|s: Seq<u8>| self@.contains(s) implies before.remove(p@).contains(s) by {
                        let k = choose|k: int| 0 <= k < self.allowed@.len() && self.allowed@[k]@ == s;
                        assert(self.allowed@[k]@ == s);
                    }
                    assert forall|s: Seq<u8>| before.remove(p@).contains(s) implies self@.contains(s) by {
                        let j = choose|j: int| 0 <= j < old(self).allowed@.len() && old(self).allowed@[j]@ == s;
                        assert(old(self).allowed@[j]@ == s);
                    }
                }
            },
            AccessControlOp::Clear => {
                self.allowed = Vec::new();
                assert(self@ =~= Set::<Seq<u8>>::empty());
            },
        }
        Ok(())
    }
}

} // verus!
