//! Which friends are currently online, as reported by the transport.

use vstd::prelude::*;

use crate::crypto::{PublicKey, bytes_eq};
use crate::messages::{pks_view, seq_no_dups};

verus! {

/// The set of friends believed to be online.
#[derive(Debug)]
pub struct Liveness {
    pub friends: Vec<PublicKey>,
}

/// A liveness change for one friend.
#[derive(Debug)]
pub enum LivenessMutation {
    SetOnline(PublicKey),
    SetOffline(PublicKey),
}

impl Liveness {
    /// A friend's key occurs at most once.
    pub open spec fn wf(&self) -> bool {
        seq_no_dups(pks_view(self.friends@))
    }

    /// Whether a public key is recorded as online.
    pub open spec fn spec_is_online(&self, public_key: Seq<u8>) -> bool {
        exists|i: int|
            0 <= i < self.friends@.len() && (#[trigger] self.friends@[i])@ == public_key
    }

    pub fn new() -> (r: Liveness)
        ensures
            r.friends@.len() == 0,
            r.wf(),
    {
        let r = Liveness { friends: Vec::new() };
        assert(pks_view(r.friends@) =~= Seq::<Seq<u8>>::empty());
        r
    }

    /// Apply a liveness change: `Online` records the friend (once),
    /// `Offline` forgets it.
    pub fn mutate(&mut self, mutation: &LivenessMutation)
        requires
            old(self).wf(),
        ensures
            final(self).wf(),
            match mutation {
                LivenessMutation::SetOnline(pk) => {
                    &&& final(self).spec_is_online(pk@)
                    &&& forall|q: Seq<u8>|
                        q != pk@ ==> final(self).spec_is_online(q) == old(self).spec_is_online(q)
                },
                LivenessMutation::SetOffline(pk) => {
                    &&& !final(self).spec_is_online(pk@)
                    &&& forall|q: Seq<u8>|
                        q != pk@ ==> final(self).spec_is_online(q) == old(self).spec_is_online(q)
                },
            },
    {
        let ghost pre = self.friends@;
        match mutation {
            LivenessMutation::SetOnline(public_key) => {
                match self.find(public_key) {
                    Some(_) => {
                        assert(forall|q: Seq<u8>|
                            self.spec_is_online(q) == old(self).spec_is_online(q));
                    },
                    None => {
                        self.friends.push(public_key.clone());
                        proof {
                            assert(self.friends@[pre.len() as int]@ == public_key@);
                            assert forall|p: int, q: int|
                                0 <= p < q < pks_view(self.friends@).len() implies pks_view(
                                self.friends@,
                            )[p] != pks_view(self.friends@)[q] by {
                                assert(pks_view(self.friends@)[p] == self.friends@[p]@);
                                assert(pks_view(self.friends@)[q] == self.friends@[q]@);
                                if q < pre.len() {
                                    assert(pks_view(pre)[p] != pks_view(pre)[q]);
                                } else {
                                    assert(self.friends@[q]@ == public_key@);
                                    assert(self.friends@[p]@ != public_key@);
                                }
                            }
                            assert forall|q: Seq<u8>| q != public_key@ implies self.spec_is_online(
                                q,
                            ) == old(self).spec_is_online(q) by {
                                if self.spec_is_online(q) {
                                    let i = choose|i: int|
                                        0 <= i < self.friends@.len() && (#[trigger] self.friends@[i])@
                                            == q;
                                    assert(i < pre.len());
                                    assert(pre[i]@ == q);
                                }
                                if old(self).spec_is_online(q) {
                                    let i = choose|i: int|
                                        0 <= i < pre.len() && (#[trigger] pre[i])@ == q;
                                    assert(self.friends@[i] == pre[i]);
                                    assert(self.spec_is_online(q));
                                }
                            }
                        }
                    },
                }
            },
            LivenessMutation::SetOffline(public_key) => {
                match self.find(public_key) {
                    Some(i) => {
                        let _ = self.friends.remove(i);
                        proof {
                            assert forall|p: int, q: int|
                                0 <= p < q < pks_view(self.friends@).len() implies pks_view(
                                self.friends@,
                            )[p] != pks_view(self.friends@)[q] by {
                                let pp = if p < i { p } else { p + 1 };
                                let qq = if q < i { q } else { q + 1 };
                                assert(pks_view(self.friends@)[p] == self.friends@[p]@);
                                assert(pks_view(self.friends@)[q] == self.friends@[q]@);
                                assert(self.friends@[p] == pre[pp]);
                                assert(self.friends@[q] == pre[qq]);
                                assert(pks_view(pre)[pp] != pks_view(pre)[qq]);
                            }
                            assert(!self.spec_is_online(public_key@)) by {
                                if self.spec_is_online(public_key@) {
                                    let j = choose|j: int|
                                        0 <= j < self.friends@.len() && (#[trigger] self.friends@[j])@
                                            == public_key@;
                                    let jj = if j < i {
                                        j
                                    } else {
                                        j + 1
                                    };
                                    assert(self.friends@[j] == pre[jj]);
                                    assert(jj != i);
                                    assert(pks_view(pre)[jj] == pre[jj]@);
                                    assert(pks_view(pre)[i as int] == pre[i as int]@);
                                    if jj < i {
                                        assert(pks_view(pre)[jj] != pks_view(pre)[i as int]);
                                    } else {
                                        assert(pks_view(pre)[i as int] != pks_view(pre)[jj]);
                                    }
                                }
                            }
                            assert forall|q: Seq<u8>| q != public_key@ implies self.spec_is_online(
                                q,
                            ) == old(self).spec_is_online(q) by {
                                if old(self).spec_is_online(q) {
                                    let j = choose|j: int|
                                        0 <= j < pre.len() && (#[trigger] pre[j])@ == q;
                                    assert(j != i);
                                    if j < i {
                                        assert(self.friends@[j] == pre[j]);
                                        assert(self.spec_is_online(q));
                                    } else {
                                        assert(self.friends@[j - 1] == pre[j]);
                                        assert(self.spec_is_online(q));
                                    }
                                }
                                if self.spec_is_online(q) {
                                    let j = choose|j: int|
                                        0 <= j < self.friends@.len() && (#[trigger] self.friends@[j])@
                                            == q;
                                    let jj = if j < i {
                                        j
                                    } else {
                                        j + 1
                                    };
                                    assert(self.friends@[j] == pre[jj]);
                                    assert(old(self).spec_is_online(q));
                                }
                            }
                        }
                    },
                    None => {},
                }
            },
        }
    }

    /// Whether this friend is currently online.
    pub fn is_online(&self, friend_public_key: &PublicKey) -> (r: bool)
        ensures
            r == self.spec_is_online(friend_public_key@),
    {
        match self.find(friend_public_key) {
            Some(_) => true,
            None => false,
        }
    }

    /// Find the position of a public key in the online list.
    fn find(&self, public_key: &PublicKey) -> (r: Option<usize>)
        ensures
            match r {
                Some(i) => i < self.friends@.len() && self.friends@[i as int]@ == public_key@,
                None => forall|j: int|
                    0 <= j < self.friends@.len() ==> (#[trigger] self.friends@[j])@ != public_key@,
            },
    {
        let mut i: usize = 0;
        while i < self.friends.len()
            invariant
                i <= self.friends.len(),
                forall|j: int| 0 <= j < i ==> (#[trigger] self.friends@[j])@ != public_key@,
            decreases self.friends.len() - i,
        {
            if bytes_eq(&self.friends[i].bytes, &public_key.bytes) {
                return Some(i);
            }
            i = i + 1;
        }
        None
    }
}

} // verus!
