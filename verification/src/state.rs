//! The funder's single long-lived state object: the friends map, the open
//! payments and the open transactions that point back to them. All
//! mutation goes through `FunderMutation` values, so every change can be
//! serialised, persisted and replayed.

use vstd::prelude::*;

use crate::crypto::{InvoiceId, PaymentId, PublicKey, Uid, bytes_eq};
use crate::friend::{FriendMutation, FriendState};
use crate::messages::{Receipt, ReceiptView};

verus! {

/// A key occurs in a keyed sequence.
pub open spec fn key_contains<A>(s: Seq<(Seq<u8>, A)>, key: Seq<u8>) -> bool {
    exists|i: int| 0 <= i < s.len() && (#[trigger] s[i]).0 == key
}

/// The position of a key in a keyed sequence.
pub open spec fn key_index<A>(s: Seq<(Seq<u8>, A)>, key: Seq<u8>) -> int {
    choose|i: int| 0 <= i < s.len() && (#[trigger] s[i]).0 == key
}

/// The value under a key.
pub open spec fn key_get<A>(s: Seq<(Seq<u8>, A)>, key: Seq<u8>) -> A {
    s[key_index(s, key)].1
}

/// The sequence with the entry under `key` removed.
pub open spec fn key_remove<A>(s: Seq<(Seq<u8>, A)>, key: Seq<u8>) -> Seq<(Seq<u8>, A)> {
    if key_contains(s, key) {
        s.remove(key_index(s, key))
    } else {
        s
    }
}

/// The sequence with the value under `key` replaced (or appended).
pub open spec fn key_update<A>(s: Seq<(Seq<u8>, A)>, key: Seq<u8>, value: A) -> Seq<
    (Seq<u8>, A),
> {
    if key_contains(s, key) {
        s.update(key_index(s, key), (key, value))
    } else {
        s.push((key, value))
    }
}

/// No key occurs twice.
pub open spec fn keys_unique<A>(s: Seq<(Seq<u8>, A)>) -> bool {
    forall|i: int, j: int| 0 <= i < j < s.len() ==> (#[trigger] s[i]).0 != (#[trigger] s[j]).0
}

/// Under unique keys, any position holding the key is the chosen one.
pub proof fn lemma_key_index_unique<A>(s: Seq<(Seq<u8>, A)>, key: Seq<u8>, j: int)
    requires
        keys_unique(s),
        0 <= j < s.len(),
        s[j].0 == key,
    ensures
        key_contains(s, key),
        key_index(s, key) == j,
{
    assert(key_contains(s, key));
    let i = key_index(s, key);
    if i != j {
        if i < j {
            assert(s[i].0 != s[j].0);
        } else {
            assert(s[j].0 != s[i].0);
        }
    }
}

/// A payment that was created but whose transactions are still being
/// issued by the user.
#[derive(Debug)]
pub struct NewTransactions {
    pub num_transactions: u64,
    pub invoice_id: InvoiceId,
    pub total_dest_payment: u128,
    pub dest_public_key: PublicKey,
}

/// Spec image of a payment's lifecycle state.
pub ghost enum PaymentView {
    NewTransactions(u64, Seq<u8>, u128, Seq<u8>),
    InProgress(u64),
    Success(u64, ReceiptView, Seq<u8>),
    Canceled(Seq<u8>),
    AfterSuccessAck(u64),
}

/// One user-level payment. The count of open transactions decreases as
/// they close; the payment is deleted when it reaches zero after a
/// terminal state was acknowledged.
#[derive(Debug)]
pub enum Payment {
    NewTransactions(NewTransactions),
    InProgress(u64),
    Success(u64, Receipt, Uid),
    Canceled(Uid),
    AfterSuccessAck(u64),
}

impl View for Payment {
    type V = PaymentView;

    open spec fn view(&self) -> PaymentView {
        match self {
            Payment::NewTransactions(nt) => PaymentView::NewTransactions(
                nt.num_transactions,
                nt.invoice_id@,
                nt.total_dest_payment,
                nt.dest_public_key@,
            ),
            Payment::InProgress(n) => PaymentView::InProgress(*n),
            Payment::Success(n, receipt, ack) => PaymentView::Success(*n, receipt@, ack@),
            Payment::Canceled(ack) => PaymentView::Canceled(ack@),
            Payment::AfterSuccessAck(n) => PaymentView::AfterSuccessAck(*n),
        }
    }
}

impl Clone for Payment {
    fn clone(&self) -> (r: Self)
        ensures
            r@ == self@,
    {
        match self {
            Payment::NewTransactions(nt) => Payment::NewTransactions(
                NewTransactions {
                    num_transactions: nt.num_transactions,
                    invoice_id: nt.invoice_id.clone(),
                    total_dest_payment: nt.total_dest_payment,
                    dest_public_key: nt.dest_public_key.clone(),
                },
            ),
            Payment::InProgress(n) => Payment::InProgress(*n),
            Payment::Success(n, receipt, ack) => Payment::Success(
                *n,
                receipt.clone(),
                ack.clone(),
            ),
            Payment::Canceled(ack) => Payment::Canceled(ack.clone()),
            Payment::AfterSuccessAck(n) => Payment::AfterSuccessAck(*n),
        }
    }
}

/// An open transaction, pointing back to the payment it belongs to.
#[derive(Debug)]
pub struct OpenTransaction {
    pub payment_id: PaymentId,
}

impl Clone for OpenTransaction {
    fn clone(&self) -> (r: Self)
        ensures
            r.payment_id@ == self.payment_id@,
    {
        OpenTransaction { payment_id: self.payment_id.clone() }
    }
}

/// The funder's whole state.
#[derive(Debug)]
pub struct FunderState {
    pub local_public_key: PublicKey,
    pub friends: Vec<(PublicKey, FriendState)>,
    pub payments: Vec<(PaymentId, Payment)>,
    pub open_transactions: Vec<(Uid, OpenTransaction)>,
}

impl FunderState {
    /// The payments, as (payment id, payment) pairs.
    pub open spec fn payments_view(&self) -> Seq<(Seq<u8>, PaymentView)> {
        self.payments@.map_values(|p: (PaymentId, Payment)| (p.0@, p.1@))
    }

    /// The open transactions, as (request id, payment id) pairs.
    pub open spec fn transactions_view(&self) -> Seq<(Seq<u8>, Seq<u8>)> {
        self.open_transactions@.map_values(|p: (Uid, OpenTransaction)| (p.0@, p.1.payment_id@))
    }

    /// The friends' public keys, in map order.
    pub open spec fn friend_keys(&self) -> Seq<Seq<u8>> {
        self.friends@.map_values(|p: (PublicKey, FriendState)| p.0@)
    }

    /// Uniqueness of all three key spaces.
    pub open spec fn keys_wf(&self) -> bool {
        &&& keys_unique(self.payments_view())
        &&& keys_unique(self.transactions_view())
        &&& crate::messages::seq_no_dups(self.friend_keys())
    }

    /// Create an empty funder state.
    pub fn new(local_public_key: &PublicKey) -> (r: FunderState)
        ensures
            r.local_public_key@ == local_public_key@,
            r.friends@.len() == 0,
            r.payments_view().len() == 0,
            r.transactions_view().len() == 0,
            r.keys_wf(),
    {
        let r = FunderState {
            local_public_key: local_public_key.clone(),
            friends: Vec::new(),
            payments: Vec::new(),
            open_transactions: Vec::new(),
        };
        assert(r.payments_view() =~= Seq::<(Seq<u8>, PaymentView)>::empty());
        assert(r.transactions_view() =~= Seq::<(Seq<u8>, Seq<u8>)>::empty());
        assert(r.friend_keys() =~= Seq::<Seq<u8>>::empty());
        r
    }
}

/// Find a friend's position by public key.
pub fn find_friend_index(
    friends: &Vec<(PublicKey, FriendState)>,
    public_key: &PublicKey,
) -> (r: Option<usize>)
    ensures
        match r {
            Some(i) => i < friends@.len() && friends@[i as int].0@ == public_key@,
            None => forall|j: int|
                0 <= j < friends@.len() ==> (#[trigger] friends@[j]).0@ != public_key@,
        },
{
    let mut i: usize = 0;
    while i < friends.len()
        invariant
            i <= friends.len(),
            forall|j: int| 0 <= j < i ==> (#[trigger] friends@[j]).0@ != public_key@,
        decreases friends.len() - i,
    {
        if bytes_eq(&friends[i].0.bytes, &public_key.bytes) {
            return Some(i);
        }
        i = i + 1;
    }
    None
}

/// Find a payment's position by payment id.
pub fn find_payment_index(payments: &Vec<(PaymentId, Payment)>, payment_id: &PaymentId) -> (r:
    Option<usize>)
    ensures
        match r {
            Some(i) => i < payments@.len() && payments@[i as int].0@ == payment_id@,
            None => forall|j: int|
                0 <= j < payments@.len() ==> (#[trigger] payments@[j]).0@ != payment_id@,
        },
{
    let mut i: usize = 0;
    while i < payments.len()
        invariant
            i <= payments.len(),
            forall|j: int| 0 <= j < i ==> (#[trigger] payments@[j]).0@ != payment_id@,
        decreases payments.len() - i,
    {
        if bytes_eq(&payments[i].0.bytes, &payment_id.bytes) {
            return Some(i);
        }
        i = i + 1;
    }
    None
}

/// Find an open transaction's position by request id.
pub fn find_transaction_index(
    open_transactions: &Vec<(Uid, OpenTransaction)>,
    request_id: &Uid,
) -> (r: Option<usize>)
    ensures
        match r {
            Some(i) => i < open_transactions@.len() && open_transactions@[i as int].0@
                == request_id@,
            None => forall|j: int|
                0 <= j < open_transactions@.len() ==> (#[trigger] open_transactions@[j]).0@
                    != request_id@,
        },
{
    let mut i: usize = 0;
    while i < open_transactions.len()
        invariant
            i <= open_transactions.len(),
            forall|j: int| 0 <= j < i ==> (#[trigger] open_transactions@[j]).0@ != request_id@,
        decreases open_transactions.len() - i,
    {
        if bytes_eq(&open_transactions[i].0.bytes, &request_id.bytes) {
            return Some(i);
        }
        i = i + 1;
    }
    None
}

/// One durable change to the funder's state.
#[derive(Debug)]
pub enum FunderMutation {
    FriendMutation(PublicKey, FriendMutation),
    AddFriend(crate::messages::AddFriend),
    RemoveFriend(PublicKey),
    UpdatePayment(PaymentId, Payment),
    RemovePayment(PaymentId),
    AddTransaction(Uid, OpenTransaction),
    RemoveTransaction(Uid),
}

impl FunderState {
    /// Apply one mutation to the funder's state.
    pub fn mutate(&mut self, funder_mutation: &FunderMutation)
        requires
            old(self).keys_wf(),
            match funder_mutation {
                FunderMutation::FriendMutation(pk, fm) => match fm {
                    FriendMutation::McMutation(m) => forall|j: int|
                        0 <= j < old(self).friends@.len() && (#[trigger] old(self).friends@[j]).0@ == pk@ ==> old(self).friends@[j].1.consistent()
                            && crate::mutual_credit::pt_ids_unique(
                            old(self).friends@[j].1.mc_view().local_pending,
                        ) && crate::mutual_credit::pt_ids_unique(
                            old(self).friends@[j].1.mc_view().remote_pending,
                        ),
                    FriendMutation::SetWantedRemoteMaxDebt(..)
                        | FriendMutation::SetWantedLocalRequestsStatus(..)
                        | FriendMutation::PushBackPendingRequest(..)
                        | FriendMutation::PopFrontPendingRequest
                        | FriendMutation::PushBackPendingBackwardsOp(..)
                        | FriendMutation::PopFrontPendingBackwardsOp
                        | FriendMutation::PushBackPendingUserRequest(..)
                        | FriendMutation::PopFrontPendingUserRequest
                        | FriendMutation::RemovePendingRequests => forall|j: int|
                        0 <= j < old(self).friends@.len() && (#[trigger] old(self).friends@[j]).0@ == pk@ ==> old(self).friends@[j].1.consistent(),
                    _ => true,
                },
                _ => true,
            },
        ensures
            final(self).keys_wf(),
            final(self).local_public_key@ == old(self).local_public_key@,
            match funder_mutation {
                FunderMutation::UpdatePayment(payment_id, payment) => {
                    &&& final(self).payments_view() == key_update(
                        old(self).payments_view(),
                        payment_id@,
                        payment@,
                    )
                    &&& final(self).transactions_view() == old(self).transactions_view()
                    &&& final(self).friends@ == old(self).friends@
                },
                FunderMutation::RemovePayment(payment_id) => {
                    &&& final(self).payments_view() == key_remove(
                        old(self).payments_view(),
                        payment_id@,
                    )
                    &&& final(self).transactions_view() == old(self).transactions_view()
                    &&& final(self).friends@ == old(self).friends@
                },
                FunderMutation::AddTransaction(request_id, transaction) => {
                    &&& final(self).transactions_view() == key_update(
                        old(self).transactions_view(),
                        request_id@,
                        transaction.payment_id@,
                    )
                    &&& final(self).payments_view() == old(self).payments_view()
                    &&& final(self).friends@ == old(self).friends@
                },
                FunderMutation::RemoveTransaction(request_id) => {
                    &&& final(self).transactions_view() == key_remove(
                        old(self).transactions_view(),
                        request_id@,
                    )
                    &&& final(self).payments_view() == old(self).payments_view()
                    &&& final(self).friends@ == old(self).friends@
                },
                FunderMutation::FriendMutation(pk, fm) => {
                    &&& final(self).payments_view() == old(self).payments_view()
                    &&& final(self).transactions_view() == old(self).transactions_view()
                    &&& final(self).friends@.len() == old(self).friends@.len()
                    &&& final(self).friend_keys() == old(self).friend_keys()
                    &&& forall|j: int|
                        0 <= j < old(self).friends@.len() && (#[trigger] old(self).friends@[j]).0@
                            != pk@ ==> final(self).friends@[j] == old(self).friends@[j]
                    &&& forall|j: int|
                        0 <= j < old(self).friends@.len() && (#[trigger] old(self).friends@[j]).0@
                            == pk@ ==> match fm {
                            FriendMutation::McMutation(m) => old(self).friends@[j].1.consistent()
                                ==> (final(self).friends@[j].1.consistent() && final(self).friends@[j].1.mc_view() == crate::mutual_credit::spec_mc_mutate(
                                old(self).friends@[j].1.mc_view(),
                                m@,
                            )),
                            FriendMutation::PushBackPendingBackwardsOp(c, op) => old(self).friends@[j].1.consistent() ==> final(self).friends@[j].1.pending_backwards_ops_view() == old(self).friends@[j].1.pending_backwards_ops_view().push((c@, op@)),
                            FriendMutation::PushBackPendingRequest(c, rq) => old(self).friends@[j].1.consistent() ==> final(self).friends@[j].1.pending_requests_view() == old(self).friends@[j].1.pending_requests_view().push((c@, rq@)),
                            FriendMutation::PushBackPendingUserRequest(c, rq) => old(self).friends@[j].1.consistent() ==> final(self).friends@[j].1.pending_user_requests_view() == old(self).friends@[j].1.pending_user_requests_view().push((c@, rq@)),
                            FriendMutation::SetStatus(st) => final(self).friends@[j].1.status
                                == *st,
                            _ => true,
                        }
                },
                FunderMutation::AddFriend(add_friend) => {
                    &&& final(self).payments_view() == old(self).payments_view()
                    &&& final(self).transactions_view() == old(self).transactions_view()
                    &&& forall|j: int|
                        0 <= j < old(self).friends@.len() ==> final(self).friends@[j]
                            == old(self).friends@[j]
                    &&& crate::messages::seq_no_dups(old(self).friend_keys()) ==> exists|j: int|
                        0 <= j < final(self).friends@.len()
                            && (#[trigger] final(self).friends@[j]).0@
                            == add_friend.friend_public_key@
                },
                FunderMutation::RemoveFriend(pk) => {
                    &&& final(self).payments_view() == old(self).payments_view()
                    &&& final(self).transactions_view() == old(self).transactions_view()
                    &&& (forall|j: int|
                        0 <= j < old(self).friends@.len() ==> (#[trigger] old(self).friends@[j]).0@ != pk@) ==> final(self).friends@ == old(self).friends@
                    &&& (exists|j: int|
                        0 <= j < old(self).friends@.len() && (#[trigger] old(self).friends@[j]).0@ == pk@) ==> final(self).friends@.len() == old(self).friends@.len() - 1
                    &&& forall|j: int|
                        0 <= j < old(self).friends@.len() && (#[trigger] old(self).friends@[j]).0@ != pk@ ==> exists|j2: int|
                            0 <= j2 < final(self).friends@.len() && final(self).friends@[j2]
                                == old(self).friends@[j]
                },
            },
    {
        let ghost pre = *self;
        match funder_mutation {
            FunderMutation::FriendMutation(public_key, friend_mutation) => {
                match find_friend_index(&self.friends, public_key) {
                    Some(i) => {
                        proof {
                            assert forall|j: int|
                                0 <= j < pre.friends@.len() && (#[trigger] pre.friends@[j]).0@
                                    == public_key@ implies j == i as int by {
                                if j != i as int {
                                    let a = if j < i as int { j } else { i as int };
                                    let b = if j < i as int { i as int } else { j };
                                    assert(pre.friend_keys()[a] != pre.friend_keys()[b]);
                                    assert(pre.friend_keys()[j] == pre.friends@[j].0@);
                                    assert(pre.friend_keys()[i as int] == pre.friends@[i as int]
                                        .0@);
                                }
                            }
                        }
                        let pair = &mut self.friends[i];

                        pair.1.mutate(friend_mutation);
                        proof {
                            assert(self.friend_keys() =~= pre.friend_keys());
                            assert(self.payments_view() =~= pre.payments_view());
                            assert(self.transactions_view() =~= pre.transactions_view());
                        }
                    },
                    None => {},
                }
            },
            FunderMutation::AddFriend(add_friend) => {
                // A friend is added only under a fresh public key; adding
                // an existing one changes nothing.
                match find_friend_index(&self.friends, &add_friend.friend_public_key) {
                    Some(i) => {
                        proof {
                            assert(self.friends@[i as int].0@ == add_friend.friend_public_key@);
                        }
                    },
                    None => {
                        let mut friend = FriendState::new(
                            &self.local_public_key,
                            &add_friend.friend_public_key,
                            crate::messages::clone_relays(&add_friend.relays),
                            add_friend.name.clone(),
                        );
                        if add_friend.balance != 0 {
                            friend.mutate(
                                &FriendMutation::McMutation(
                                    crate::mutual_credit::McMutation::SetBalance(
                                        add_friend.balance,
                                    ),
                                ),
                            );
                        }
                        let n = self.friends.len();
                        self.friends.push((add_friend.friend_public_key.clone(), friend));
                        proof {
                            assert(self.friends@[n as int].0@ == add_friend.friend_public_key@);
                            assert(self.payments_view() =~= pre.payments_view());
                            assert(self.transactions_view() =~= pre.transactions_view());
                            assert forall|p: int, q: int|
                                0 <= p < q < self.friend_keys().len() implies (
                            #[trigger] self.friend_keys()[p]) != (#[trigger] self.friend_keys()[q]) by {
                                assert(self.friend_keys()[p] == self.friends@[p].0@);
                                assert(self.friend_keys()[q] == self.friends@[q].0@);
                                if q < n {
                                    assert(pre.friend_keys()[p] == pre.friends@[p].0@);
                                    assert(pre.friend_keys()[q] == pre.friends@[q].0@);
                                    assert(pre.friend_keys()[p] != pre.friend_keys()[q]);
                                } else {
                                    assert(self.friends@[q].0@ == add_friend.friend_public_key@);
                                    assert(self.friends@[p].0@ != add_friend.friend_public_key@);
                                }
                            }
                        }
                    },
                }
            },
            FunderMutation::RemoveFriend(public_key) => {
                match find_friend_index(&self.friends, public_key) {
                    Some(i) => {
                        let _ = self.friends.remove(i);
                        proof {
                            assert(self.payments_view() =~= pre.payments_view());
                            assert(self.transactions_view() =~= pre.transactions_view());
                            assert forall|p: int, q: int|
                                0 <= p < q < self.friend_keys().len() implies (
                            #[trigger] self.friend_keys()[p]) != (#[trigger] self.friend_keys()[q]) by {
                                let s = pre.friend_keys();
                                let pp = if p < i { p } else { p + 1 };
                                let qq = if q < i { q } else { q + 1 };
                                assert(self.friend_keys()[p] == s[pp]);
                                assert(self.friend_keys()[q] == s[qq]);
                            }
                            assert forall|j: int|
                                0 <= j < pre.friends@.len() && (#[trigger] pre.friends@[j]).0@
                                    != public_key@ implies exists|j2: int|
                                    0 <= j2 < self.friends@.len() && self.friends@[j2]
                                        == pre.friends@[j] by {
                                if j < i {
                                    assert(self.friends@[j] == pre.friends@[j]);
                                } else {
                                    assert(j != i);
                                    assert(self.friends@[j - 1] == pre.friends@[j]);
                                }
                            }
                        }
                    },
                    None => {},
                }
            },
            FunderMutation::UpdatePayment(payment_id, payment) => {
                match find_payment_index(&self.payments, payment_id) {
                    Some(i) => {
                        proof {
                            lemma_key_index_unique(pre.payments_view(), payment_id@, i as int);
                        }
                        self.payments.set(i, (payment_id.clone(), payment.clone()));
                        proof {
                            assert(self.payments_view() =~= key_update(
                                pre.payments_view(),
                                payment_id@,
                                payment@,
                            ));
                            assert forall|p: int, q: int|
                                0 <= p < q < self.payments_view().len() implies (
                            #[trigger] self.payments_view()[p]).0 != (#[trigger] self.payments_view()[q]).0 by {
                                assert(self.payments_view()[p].0 == pre.payments_view()[p].0);
                                assert(self.payments_view()[q].0 == pre.payments_view()[q].0);
                            }
                        }
                    },
                    None => {
                        self.payments.push((payment_id.clone(), payment.clone()));
                        proof {
                            assert(self.payments_view() =~= pre.payments_view().push(
                                (payment_id@, payment@),
                            ));
                            assert forall|p: int, q: int|
                                0 <= p < q < self.payments_view().len() implies (
                            #[trigger] self.payments_view()[p]).0 != (#[trigger] self.payments_view()[q]).0 by {
                                if q == self.payments_view().len() - 1 {
                                    assert(self.payments_view()[p].0 == pre.payments_view()[p].0);
                                }
                            }
                        }
                    },
                }
                proof {
                    assert(self.transactions_view() =~= pre.transactions_view());
                    assert(self.friend_keys() =~= pre.friend_keys());
                }
            },
            FunderMutation::RemovePayment(payment_id) => {
                match find_payment_index(&self.payments, payment_id) {
                    Some(i) => {
                        proof {
                            lemma_key_index_unique(pre.payments_view(), payment_id@, i as int);
                        }
                        let _ = self.payments.remove(i);
                        proof {
                            assert(self.payments_view() =~= pre.payments_view().remove(i as int));
                            assert forall|p: int, q: int|
                                0 <= p < q < self.payments_view().len() implies (
                            #[trigger] self.payments_view()[p]).0 != (#[trigger] self.payments_view()[q]).0 by {
                                let s = pre.payments_view();
                                let pp = if p < i { p } else { p + 1 };
                                let qq = if q < i { q } else { q + 1 };
                                assert(self.payments_view()[p].0 == s[pp].0);
                                assert(self.payments_view()[q].0 == s[qq].0);
                            }
                        }
                    },
                    None => {},
                }
                proof {
                    assert(self.transactions_view() =~= pre.transactions_view());
                    assert(self.friend_keys() =~= pre.friend_keys());
                }
            },
            FunderMutation::AddTransaction(request_id, transaction) => {
                match find_transaction_index(&self.open_transactions, request_id) {
                    Some(i) => {
                        proof {
                            lemma_key_index_unique(pre.transactions_view(), request_id@, i as int);
                        }
                        self.open_transactions.set(i, (request_id.clone(), transaction.clone()));
                        proof {
                            assert(self.transactions_view() =~= key_update(
                                pre.transactions_view(),
                                request_id@,
                                transaction.payment_id@,
                            ));
                            assert forall|p: int, q: int|
                                0 <= p < q < self.transactions_view().len() implies (
                            #[trigger] self.transactions_view()[p]).0 != (#[trigger] self.transactions_view()[q]).0 by {
                                assert(self.transactions_view()[p].0 == pre.transactions_view()[p].0);
                                assert(self.transactions_view()[q].0 == pre.transactions_view()[q].0);
                            }
                        }
                    },
                    None => {
                        self.open_transactions.push((request_id.clone(), transaction.clone()));
                        proof {
                            assert(self.transactions_view() =~= pre.transactions_view().push(
                                (request_id@, transaction.payment_id@),
                            ));
                            assert forall|p: int, q: int|
                                0 <= p < q < self.transactions_view().len() implies (
                            #[trigger] self.transactions_view()[p]).0 != (#[trigger] self.transactions_view()[q]).0 by {
                                if q == self.transactions_view().len() - 1 {
                                    assert(self.transactions_view()[p].0 == pre.transactions_view()[p].0);
                                }
                            }
                        }
                    },
                }
                proof {
                    assert(self.payments_view() =~= pre.payments_view());
                    assert(self.friend_keys() =~= pre.friend_keys());
                }
            },
            FunderMutation::RemoveTransaction(request_id) => {
                match find_transaction_index(&self.open_transactions, request_id) {
                    Some(i) => {
                        proof {
                            lemma_key_index_unique(pre.transactions_view(), request_id@, i as int);
                        }
                        let _ = self.open_transactions.remove(i);
                        proof {
                            assert(self.transactions_view() =~= pre.transactions_view().remove(
                                i as int,
                            ));
                            assert forall|p: int, q: int|
                                0 <= p < q < self.transactions_view().len() implies (
                            #[trigger] self.transactions_view()[p]).0 != (#[trigger] self.transactions_view()[q]).0 by {
                                let s = pre.transactions_view();
                                let pp = if p < i { p } else { p + 1 };
                                let qq = if q < i { q } else { q + 1 };
                                assert(self.transactions_view()[p].0 == s[pp].0);
                                assert(self.transactions_view()[q].0 == s[qq].0);
                            }
                        }
                    },
                    None => {},
                }
                proof {
                    assert(self.payments_view() =~= pre.payments_view());
                    assert(self.friend_keys() =~= pre.friend_keys());
                }
            },
        }
    }
}

} // verus!
