//! Cancellation of in-flight obligations: replying to a single request
//! with a cancel, closing a buyer-side transaction, and walking a
//! friend's queues and pending transactions when the friend leaves or is
//! disabled.

use vstd::prelude::*;

use crate::crypto::{Currency, PublicKey, Uid};
use crate::friend::{BackwardsOp, BackwardsOpView, FriendMutation};
use crate::funder::create_cancel_send_funds;
use crate::messages::{
    CancelSendFundsOpView, RequestResult, RequestSendFundsOp, RequestSendFundsOpView,
    TransactionResult,
};
use crate::state::{
    FunderMutation, FunderState, Payment, PaymentView, find_friend_index, key_index,
    find_payment_index, find_transaction_index, key_contains, key_get, key_remove,
    key_update, lemma_key_index_unique,
};

verus! {

/// Whether a cancellation sweep covers one currency or all of them.
#[derive(Debug)]
pub enum CurrencyChoice {
    /// Just one currency
    One(Currency),
    /// All currencies
    All,
}

/// Reply to a single request with a cancellation: the cancel is queued on
/// the backwards queue of the named friend, to be delivered with the next
/// move token. Returns true exactly when such a friend exists and its
/// channel is not under reset; returns false, changing nothing, otherwise.
pub fn reply_with_cancel(
    state: &mut FunderState,
    remote_public_key: &PublicKey,
    currency: &Currency,
    request_id: &Uid,
) -> (r: bool)
    requires
        old(state).keys_wf(),
    ensures
        r == exists|j: int|
            0 <= j < old(state).friends@.len() && (#[trigger] old(state).friends@[j]).0@
                == remote_public_key@ && old(state).friends@[j].1.consistent(),
        final(state).keys_wf(),
        final(state).payments_view() == old(state).payments_view(),
        final(state).transactions_view() == old(state).transactions_view(),
        final(state).friends@.len() == old(state).friends@.len(),
        final(state).friend_keys() == old(state).friend_keys(),
        forall|j: int|
            0 <= j < old(state).friends@.len() && (#[trigger] old(state).friends@[j]).0@
                != remote_public_key@ ==> final(state).friends@[j] == old(state).friends@[j],
        if r {
            forall|j: int|
                0 <= j < old(state).friends@.len() && (#[trigger] old(state).friends@[j]).0@
                    == remote_public_key@ ==> {
                    &&& final(state).friends@[j].1.pending_backwards_ops_view() == old(
                        state,
                    ).friends@[j].1.pending_backwards_ops_view().push(
                        (
                            currency@,
                            BackwardsOpView::Cancel(
                                CancelSendFundsOpView { request_id: request_id@ },
                            ),
                        ),
                    )
                    &&& final(state).friends@[j].1.pending_requests_view() == old(
                        state,
                    ).friends@[j].1.pending_requests_view()
                    &&& final(state).friends@[j].1.pending_user_requests_view() == old(
                        state,
                    ).friends@[j].1.pending_user_requests_view()
                    &&& final(state).friends@[j].1.mc_view() == old(state).friends@[j].1.mc_view()
                    &&& final(state).friends@[j].1.consistent()
                }
        } else {
            final(state).friends@ == old(state).friends@
        },
{
    let ghost pre = *state;
    let idx = match find_friend_index(&state.friends, remote_public_key) {
        None => {
            return false;
        },
        Some(i) => i,
    };
    proof {
        assert forall|j: int|
            0 <= j < pre.friends@.len() && (#[trigger] pre.friends@[j]).0@
                == remote_public_key@ implies j == idx as int by {
            if j != idx as int {
                let a = if j < idx as int { j } else { idx as int };
                let b = if j < idx as int { idx as int } else { j };
                assert(pre.friend_keys()[a] != pre.friend_keys()[b]);
                assert(pre.friend_keys()[j] == pre.friends@[j].0@);
                assert(pre.friend_keys()[idx as int] == pre.friends@[idx as int].0@);
            }
        }
    }
    let consistent = match &state.friends[idx].1.channel_status {
        crate::friend::ChannelStatus::Consistent(_) => true,
        crate::friend::ChannelStatus::Inconsistent(_) => false,
    };
    if !consistent {
        return false;
    }
    let cancel_send_funds = create_cancel_send_funds(request_id.clone());
    let friend_mutation = FriendMutation::PushBackPendingBackwardsOp(
        currency.clone(),
        BackwardsOp::Cancel(cancel_send_funds),
    );
    let pair = &mut state.friends[idx];
    pair.1.mutate(&friend_mutation);
    proof {
        assert(state.payments_view() =~= pre.payments_view());
        assert(state.transactions_view() =~= pre.transactions_view());
        assert(state.friend_keys() =~= pre.friend_keys());
    }
    true
}

/// How closing one transaction moves its payment along. `None` on the
/// outside means the state is incoherent (the payment was already
/// cancelled, or its transaction count is exhausted); `Some(None)` means
/// the payment is deleted.
pub open spec fn payment_after_remove(p: PaymentView, ack: Seq<u8>) -> Option<
    Option<PaymentView>,
> {
    match p {
        PaymentView::NewTransactions(n, invoice_id, total, dest) => if n >= 1 {
            Some(Some(PaymentView::NewTransactions((n - 1) as u64, invoice_id, total, dest)))
        } else {
            None
        },
        PaymentView::InProgress(n) => if n >= 1 {
            if n > 1 {
                Some(Some(PaymentView::InProgress((n - 1) as u64)))
            } else {
                Some(Some(PaymentView::Canceled(ack)))
            }
        } else {
            None
        },
        PaymentView::Success(n, receipt, rid) => if n >= 1 {
            Some(Some(PaymentView::Success((n - 1) as u64, receipt, rid)))
        } else {
            None
        },
        PaymentView::Canceled(_) => None,
        PaymentView::AfterSuccessAck(n) => if n >= 1 {
            if n > 1 {
                Some(Some(PaymentView::AfterSuccessAck((n - 1) as u64)))
            } else {
                Some(None)
            }
        } else {
            None
        },
    }
}

/// The exact transition `remove_transaction` applies to the payment and
/// open-transaction maps: the transaction entry leaves, and its payment
/// advances by `payment_after_remove` — updated, or deleted when its last
/// acknowledged transaction closes. An id that can not be closed leaves
/// both maps unchanged.
pub open spec fn spec_remove_transaction(
    payments: Seq<(Seq<u8>, PaymentView)>,
    transactions: Seq<(Seq<u8>, Seq<u8>)>,
    ack: Seq<u8>,
    request_id: Seq<u8>,
) -> (Seq<(Seq<u8>, PaymentView)>, Seq<(Seq<u8>, Seq<u8>)>) {
    if !key_contains(transactions, request_id) {
        (payments, transactions)
    } else {
        let payment_id = key_get(transactions, request_id);
        if !key_contains(payments, payment_id) {
            (payments, transactions)
        } else {
            match payment_after_remove(key_get(payments, payment_id), ack) {
                None => (payments, transactions),
                Some(Some(p)) => (
                    key_update(payments, payment_id, p),
                    key_remove(transactions, request_id),
                ),
                Some(None) => (
                    key_remove(payments, payment_id),
                    key_remove(transactions, request_id),
                ),
            }
        }
    }
}

/// Remove a local transaction (where this node is the buyer side): the
/// open transaction is dropped and its payment advances — the transaction
/// count decreases, an in-progress payment whose last transaction closes
/// becomes cancelled under `ack_uid`, and an acknowledged payment whose
/// last transaction closes is deleted. Returns false, changing nothing,
/// exactly when the transaction or its payment is missing or the payment
/// can not close another transaction.
pub fn remove_transaction(state: &mut FunderState, ack_uid: Uid, request_id: &Uid) -> (r: bool)
    requires
        old(state).keys_wf(),
    ensures
        final(state).keys_wf(),
        final(state).friends@ == old(state).friends@,
        r == ({
            &&& key_contains(old(state).transactions_view(), request_id@)
            &&& key_contains(
                old(state).payments_view(),
                key_get(old(state).transactions_view(), request_id@),
            )
            &&& payment_after_remove(
                key_get(
                    old(state).payments_view(),
                    key_get(old(state).transactions_view(), request_id@),
                ),
                ack_uid@,
            ) is Some
        }),
        (final(state).payments_view(), final(state).transactions_view())
            == spec_remove_transaction(
            old(state).payments_view(),
            old(state).transactions_view(),
            ack_uid@,
            request_id@,
        ),
{
    let ghost pre = *state;
    let tx_idx = match find_transaction_index(&state.open_transactions, request_id) {
        None => {
            proof {
                assert(!key_contains(pre.transactions_view(), request_id@)) by {
                    if key_contains(pre.transactions_view(), request_id@) {
                        let i = key_index(pre.transactions_view(), request_id@);
                        assert(pre.transactions_view()[i].0 == pre.open_transactions@[i].0@);
                    }
                }
            }
            return false;
        },
        Some(i) => i,
    };
    proof {
        lemma_key_index_unique(pre.transactions_view(), request_id@, tx_idx as int);
    }
    let payment_id = state.open_transactions[tx_idx].1.payment_id.clone();
    proof {
        assert(key_get(pre.transactions_view(), request_id@) == payment_id@);
    }
    let pay_idx = match find_payment_index(&state.payments, &payment_id) {
        None => {
            proof {
                assert(!key_contains(pre.payments_view(), payment_id@)) by {
                    if key_contains(pre.payments_view(), payment_id@) {
                        let i = key_index(pre.payments_view(), payment_id@);
                        assert(pre.payments_view()[i].0 == pre.payments@[i].0@);
                    }
                }
            }
            return false;
        },
        Some(i) => i,
    };
    proof {
        lemma_key_index_unique(pre.payments_view(), payment_id@, pay_idx as int);
        assert(key_get(pre.payments_view(), payment_id@) == pre.payments@[pay_idx as int].1@);
    }
    let payment = state.payments[pay_idx].1.clone();
    // Work out where the payment goes; bail out before changing anything
    // if the bookkeeping does not allow closing a transaction.
    let opt_new_payment: Option<Option<Payment>> = match payment {
        Payment::NewTransactions(nt) => {
            if nt.num_transactions >= 1 {
                Some(
                    Some(
                        Payment::NewTransactions(
                            crate::state::NewTransactions {
                                num_transactions: nt.num_transactions - 1,
                                invoice_id: nt.invoice_id,
                                total_dest_payment: nt.total_dest_payment,
                                dest_public_key: nt.dest_public_key,
                            },
                        ),
                    ),
                )
            } else {
                None
            }
        },
        Payment::InProgress(n) => {
            if n >= 1 {
                if n > 1 {
                    Some(Some(Payment::InProgress(n - 1)))
                } else {
                    Some(Some(Payment::Canceled(ack_uid)))
                }
            } else {
                None
            }
        },
        Payment::Success(n, receipt, rid) => {
            if n >= 1 {
                Some(Some(Payment::Success(n - 1, receipt, rid)))
            } else {
                None
            }
        },
        Payment::Canceled(_) => None,
        Payment::AfterSuccessAck(n) => {
            if n >= 1 {
                if n > 1 {
                    Some(Some(Payment::AfterSuccessAck(n - 1)))
                } else {
                    Some(None)
                }
            } else {
                None
            }
        },
    };
    let new_payment = match opt_new_payment {
        None => {
            return false;
        },
        Some(p) => p,
    };
    // Remove the transaction:
    let funder_mutation = FunderMutation::RemoveTransaction(request_id.clone());
    state.mutate(&funder_mutation);
    // Update or delete the payment:
    let funder_mutation = match new_payment {
        Some(p) => FunderMutation::UpdatePayment(payment_id, p),
        None => FunderMutation::RemovePayment(payment_id),
    };
    state.mutate(&funder_mutation);
    true
}

/// Closing a list of transactions in order, each under its own
/// acknowledgement id: the fold of `spec_remove_transaction`.
pub open spec fn spec_remove_all(
    payments: Seq<(Seq<u8>, PaymentView)>,
    transactions: Seq<(Seq<u8>, Seq<u8>)>,
    items: Seq<(Seq<u8>, Seq<u8>)>,
) -> (Seq<(Seq<u8>, PaymentView)>, Seq<(Seq<u8>, Seq<u8>)>)
    decreases items.len(),
{
    if items.len() == 0 {
        (payments, transactions)
    } else {
        let step = spec_remove_transaction(payments, transactions, items[0].0, items[0].1);
        spec_remove_all(step.0, step.1, items.skip(1))
    }
}

/// The (acknowledgement id, request id) pairs a sweep over a request
/// queue closes: the k-th supplied acknowledgement id, or the request id
/// itself once they run out.
pub open spec fn sweep_items(
    queue: Seq<(Seq<u8>, RequestSendFundsOpView)>,
    acks: Seq<Uid>,
) -> Seq<(Seq<u8>, Seq<u8>)> {
    Seq::new(
        queue.len(),
        |k: int|
            (
                if k < acks.len() {
                    acks[k]@
                } else {
                    queue[k].1.request_id
                },
                queue[k].1.request_id,
            ),
    )
}

/// Some friend's channel is the upstream origin of this request: a
/// consistent unit that still holds the request among its peer-opened
/// pending transactions.
pub open spec fn request_has_origin(
    friends: Seq<(PublicKey, crate::friend::FriendState)>,
    request_id: Seq<u8>,
) -> bool {
    exists|j: int|
        0 <= j < friends.len() && (#[trigger] friends[j]).1.consistent()
            && crate::mutual_credit::pt_contains(
            friends[j].1.mc_view().remote_pending,
            request_id,
        )
}

/// Origin classification only reads each friend's consistency and its
/// unit's peer-opened pendings; two friend maps that agree on those
/// classify every request alike.
pub proof fn lemma_origin_stable(
    f1: Seq<(PublicKey, crate::friend::FriendState)>,
    f2: Seq<(PublicKey, crate::friend::FriendState)>,
    request_id: Seq<u8>,
)
    requires
        f1.len() == f2.len(),
        forall|j: int|
            0 <= j < f1.len() ==> ((#[trigger] f2[j]).1.consistent() == f1[j].1.consistent() && (
            f1[j].1.consistent() ==> f2[j].1.mc_view() == f1[j].1.mc_view())),
    ensures
        request_has_origin(f1, request_id) == request_has_origin(f2, request_id),
{
    if request_has_origin(f1, request_id) {
        let j = choose|j: int|
            0 <= j < f1.len() && (#[trigger] f1[j]).1.consistent()
                && crate::mutual_credit::pt_contains(
                f1[j].1.mc_view().remote_pending,
                request_id,
            );
        assert(f2[j].1.consistent() && crate::mutual_credit::pt_contains(
            f2[j].1.mc_view().remote_pending,
            request_id,
        ));
    }
    if request_has_origin(f2, request_id) {
        let j = choose|j: int|
            0 <= j < f2.len() && (#[trigger] f2[j]).1.consistent()
                && crate::mutual_credit::pt_contains(
                f2[j].1.mc_view().remote_pending,
                request_id,
            );
        assert(f1[j].1.consistent() && crate::mutual_credit::pt_contains(
            f1[j].1.mc_view().remote_pending,
            request_id,
        ));
    }
}

/// A cancel for this request sits in the backwards queue of a friend
/// that, in the old state, was the request's origin and is still
/// consistent now.
pub open spec fn cancel_queued_at_origin(
    old_friends: Seq<(PublicKey, crate::friend::FriendState)>,
    new_friends: Seq<(PublicKey, crate::friend::FriendState)>,
    currency: Seq<u8>,
    request_id: Seq<u8>,
) -> bool {
    exists|j: int, m: int|
        #![auto]
        0 <= j < new_friends.len() && j < old_friends.len() && old_friends[j].1.consistent()
            && crate::mutual_credit::pt_contains(
            old_friends[j].1.mc_view().remote_pending,
            request_id,
        ) && new_friends[j].1.consistent() && 0 <= m
            < new_friends[j].1.pending_backwards_ops_view().len()
            && new_friends[j].1.pending_backwards_ops_view()[m] == (
        currency,
        BackwardsOpView::Cancel(CancelSendFundsOpView { request_id }),
        )
}

/// A queued cancel stays queued: later pushes to backwards queues, and
/// steps that leave the friends untouched, preserve the claim.
pub proof fn lemma_cancel_queued_monotone(
    old_friends: Seq<(PublicKey, crate::friend::FriendState)>,
    f1: Seq<(PublicKey, crate::friend::FriendState)>,
    f2: Seq<(PublicKey, crate::friend::FriendState)>,
    currency: Seq<u8>,
    request_id: Seq<u8>,
)
    requires
        f1.len() == f2.len(),
        forall|j: int|
            0 <= j < f1.len() ==> ((#[trigger] f2[j]) == f1[j] || (f2[j].1.consistent()
                && exists|x: (Seq<u8>, BackwardsOpView)|
                f2[j].1.pending_backwards_ops_view() == f1[j].1.pending_backwards_ops_view().push(
                    x,
                ))),
        cancel_queued_at_origin(old_friends, f1, currency, request_id),
    ensures
        cancel_queued_at_origin(old_friends, f2, currency, request_id),
{
    let (j, m) = choose|j: int, m: int|
        #![auto]
        0 <= j < f1.len() && j < old_friends.len() && old_friends[j].1.consistent()
            && crate::mutual_credit::pt_contains(
            old_friends[j].1.mc_view().remote_pending,
            request_id,
        ) && f1[j].1.consistent() && 0 <= m < f1[j].1.pending_backwards_ops_view().len()
            && f1[j].1.pending_backwards_ops_view()[m] == (
        currency,
        BackwardsOpView::Cancel(CancelSendFundsOpView { request_id }),
        );
    if f2[j] == f1[j] {
        assert(f2[j].1.pending_backwards_ops_view()[m] == (
            currency,
            BackwardsOpView::Cancel(CancelSendFundsOpView { request_id }),
        ));
    } else {
        let x = choose|x: (Seq<u8>, BackwardsOpView)|
            f2[j].1.pending_backwards_ops_view() == f1[j].1.pending_backwards_ops_view().push(x);
        assert(f2[j].1.pending_backwards_ops_view()[m] == f1[j].1.pending_backwards_ops_view()[m]);
    }
}

/// Whether a cancellation sweep covers this currency.
pub open spec fn currency_covered(currency_choice: &CurrencyChoice, currency: Seq<u8>) -> bool {
    match currency_choice {
        CurrencyChoice::All => true,
        CurrencyChoice::One(c) => currency == c@,
    }
}

/// Find the friend a forwarded request came from: the friend whose
/// mutual-credit unit still holds the request among the peer-opened
/// pending transactions.
pub fn find_request_origin(state: &FunderState, request_id: &Uid) -> (r: Option<PublicKey>)
    ensures
        match r {
            Some(pk) => exists|j: int|
                0 <= j < state.friends@.len() && (#[trigger] state.friends@[j]).0@ == pk@
                    && state.friends@[j].1.consistent() && crate::mutual_credit::pt_contains(
                    state.friends@[j].1.mc_view().remote_pending,
                    request_id@,
                ),
            None => forall|j: int|
                0 <= j < state.friends@.len() ==> !((#[trigger] state.friends@[j]).1.consistent()
                    && crate::mutual_credit::pt_contains(
                    state.friends@[j].1.mc_view().remote_pending,
                    request_id@,
                )),
        },
{
    let mut j: usize = 0;
    while j < state.friends.len()
        invariant
            j <= state.friends@.len(),
            forall|k: int|
                0 <= k < j ==> !((#[trigger] state.friends@[k]).1.consistent()
                    && crate::mutual_credit::pt_contains(
                    state.friends@[k].1.mc_view().remote_pending,
                    request_id@,
                )),
        decreases state.friends@.len() - j,
    {
        match &state.friends[j].1.channel_status {
            crate::friend::ChannelStatus::Consistent(cc) => {
                match crate::mutual_credit::find_pt_index(
                    &cc.token_channel.token_channel.state.pending_transactions.remote,
                    request_id,
                ) {
                    Some(i) => {
                        proof {
                            assert(state.friends@[j as int].1.mc_view().remote_pending[i as int]
                                .request_id == request_id@);
                        }
                        return Some(state.friends[j].0.clone());
                    },
                    None => {},
                }
            },
            crate::friend::ChannelStatus::Inconsistent(_) => {},
        }
        j = j + 1;
    }
    None
}

/// Cancel all pending requests created by the local user that still sit
/// in a friend's user queue: the queue is drained and every request is
/// failed toward the application, closing its transaction. When the
/// supplied acknowledgement ids run out, a request's own id doubles as
/// the acknowledgement id.
pub fn cancel_pending_user_requests(
    state: &mut FunderState,
    friend_public_key: &PublicKey,
    ack_uids: &Vec<Uid>,
) -> (r: Vec<TransactionResult>)
    requires
        old(state).keys_wf(),
    ensures
        final(state).keys_wf(),
        forall|k: int| 0 <= k < r@.len() ==> (#[trigger] r@[k]).result is Failure,
        forall|j: int|
            0 <= j < old(state).friends@.len() && (#[trigger] old(state).friends@[j]).0@
                == friend_public_key@ && old(state).friends@[j].1.consistent() ==> {
                &&& final(state).friends@[j].1.pending_user_requests_view().len() == 0
                &&& final(state).friends@[j].1.mc_view() == old(state).friends@[j].1.mc_view()
                &&& r@.len() == old(state).friends@[j].1.pending_user_requests_view().len()
                &&& forall|k: int|
                    0 <= k < r@.len() ==> (#[trigger] r@[k]).request_id@ == old(
                        state,
                    ).friends@[j].1.pending_user_requests_view()[k].1.request_id
                &&& (final(state).payments_view(), final(state).transactions_view())
                    == spec_remove_all(
                    old(state).payments_view(),
                    old(state).transactions_view(),
                    sweep_items(
                        old(state).friends@[j].1.pending_user_requests_view(),
                        ack_uids@,
                    ),
                )
            },
        (forall|j: int|
            0 <= j < old(state).friends@.len() ==> !((#[trigger] old(state).friends@[j]).0@
                == friend_public_key@ && old(state).friends@[j].1.consistent())) ==> {
            &&& final(state).payments_view() == old(state).payments_view()
            &&& final(state).transactions_view() == old(state).transactions_view()
        },
{
    let ghost pre = *state;
    let idx = match find_friend_index(&state.friends, friend_public_key) {
        None => {
            return Vec::new();
        },
        Some(i) => i,
    };
    proof {
        assert forall|j: int|
            0 <= j < pre.friends@.len() && (#[trigger] pre.friends@[j]).0@
                == friend_public_key@ implies j == idx as int by {
            if j != idx as int {
                let a = if j < idx as int { j } else { idx as int };
                let b = if j < idx as int { idx as int } else { j };
                assert(pre.friend_keys()[a] != pre.friend_keys()[b]);
                assert(pre.friend_keys()[j] == pre.friends@[j].0@);
                assert(pre.friend_keys()[idx as int] == pre.friends@[idx as int].0@);
            }
        }
    }
    let consistent = match &state.friends[idx].1.channel_status {
        crate::friend::ChannelStatus::Consistent(_) => true,
        crate::friend::ChannelStatus::Inconsistent(_) => false,
    };
    if !consistent {
        return Vec::new();
    }
    let ghost old_q = pre.friends@[idx as int].1.pending_user_requests_view();
    // Phase one: drain the user queue, remembering the requests in order.
    let mut drained: Vec<(Currency, RequestSendFundsOp)> = Vec::new();
    loop
        invariant
            idx < state.friends@.len(),
            state.friends@.len() == pre.friends@.len(),
            state.keys_wf(),
            state.friends@[idx as int].1.consistent(),
            state.friends@[idx as int].0@ == pre.friends@[idx as int].0@,
            state.friends@[idx as int].1.mc_view() == pre.friends@[idx as int].1.mc_view(),
            state.payments_view() == pre.payments_view(),
            state.transactions_view() == pre.transactions_view(),
            forall|j: int|
                0 <= j < pre.friends@.len() && j != idx as int ==> state.friends@[j]
                    == pre.friends@[j],
            drained@.len() <= old_q.len(),
            state.friends@[idx as int].1.pending_user_requests_view() == old_q.skip(
                drained@.len() as int,
            ),
            forall|m: int|
                0 <= m < drained@.len() ==> ((#[trigger] drained@[m]).0@, drained@[m].1@)
                    == old_q[m],
        ensures
            drained@.len() == old_q.len(),
            state.keys_wf(),
            idx < state.friends@.len(),
            state.friends@.len() == pre.friends@.len(),
            state.friends@[idx as int].1.consistent(),
            state.friends@[idx as int].1.pending_user_requests_view().len() == 0,
            state.friends@[idx as int].1.mc_view() == pre.friends@[idx as int].1.mc_view(),
            state.payments_view() == pre.payments_view(),
            state.transactions_view() == pre.transactions_view(),
            forall|m: int|
                0 <= m < drained@.len() ==> ((#[trigger] drained@[m]).0@, drained@[m].1@)
                    == old_q[m],
        decreases old_q.len() - drained@.len(),
    {
        let ghost before = *state;
        let next: Option<(Currency, RequestSendFundsOp)> = match &state.friends[idx]
            .1
            .channel_status {
            crate::friend::ChannelStatus::Consistent(cc) => {
                if cc.pending_user_requests.len() == 0 {
                    None
                } else {
                    let front = &cc.pending_user_requests[0];
                    Some((front.0.clone(), front.1.clone()))
                }
            },
            crate::friend::ChannelStatus::Inconsistent(_) => None,
        };
        match next {
            None => {
                proof {
                    assert(old_q.skip(drained@.len() as int).len() == 0);
                    assert(drained@.len() == old_q.len());
                }
                break ;
            },
            Some(item) => {
                proof {
                    assert(old_q.skip(drained@.len() as int).len() > 0);
                    assert(before.friends@[idx as int].1.pending_user_requests_view()[0] == (
                    item.0@, item.1@));
                    assert(old_q.skip(drained@.len() as int)[0] == old_q[drained@.len() as int]);
                }
                let pair = &mut state.friends[idx];
                pair.1.mutate(&FriendMutation::PopFrontPendingUserRequest);
                drained.push(item);
                proof {
                    assert(old_q.skip((drained@.len() - 1) as int).skip(1) =~= old_q.skip(
                        drained@.len() as int,
                    ));
                    assert(state.payments_view() =~= before.payments_view());
                    assert(state.transactions_view() =~= before.transactions_view());
                    assert(state.friend_keys() =~= before.friend_keys());
                }
            },
        }
    }
    proof {
        assert(drained@.len() == old_q.len());
    }
    // Phase two: fail every drained request toward the application and
    // close its transaction.
    let ghost items = sweep_items(old_q, ack_uids@);
    let mut results: Vec<TransactionResult> = Vec::new();
    let mut k: usize = 0;
    proof {
        assert(items.skip(0) =~= items);
    }
    while k < drained.len()
        invariant
            state.keys_wf(),
            idx < state.friends@.len(),
            state.friends@.len() == pre.friends@.len(),
            drained@.len() == old_q.len(),
            items == sweep_items(old_q, ack_uids@),
            items.len() == old_q.len(),
            results@.len() == k,
            k <= drained@.len(),
            forall|m: int|
                0 <= m < drained@.len() ==> ((#[trigger] drained@[m]).0@, drained@[m].1@)
                    == old_q[m],
            forall|m: int| 0 <= m < k ==> (#[trigger] results@[m]).result is Failure,
            forall|m: int|
                0 <= m < k ==> (#[trigger] results@[m]).request_id@ == old_q[m].1.request_id,
            state.friends@[idx as int].1.consistent(),
            state.friends@[idx as int].1.pending_user_requests_view().len() == 0,
            state.friends@[idx as int].1.mc_view() == pre.friends@[idx as int].1.mc_view(),
            spec_remove_all(pre.payments_view(), pre.transactions_view(), items)
                == spec_remove_all(
                state.payments_view(),
                state.transactions_view(),
                items.skip(k as int),
            ),
        decreases drained@.len() - k,
    {
        let request_id = drained[k].1.request_id.clone();
        let ack_uid = if k < ack_uids.len() {
            ack_uids[k].clone()
        } else {
            request_id.clone()
        };
        proof {
            assert(items[k as int].1 == old_q[k as int].1.request_id);
            assert(request_id@ == items[k as int].1);
            assert(ack_uid@ == items[k as int].0);
            assert(items.skip(k as int)[0] == items[k as int]);
            assert(items.skip(k as int).skip(1) =~= items.skip(k + 1));
        }
        results.push(
            TransactionResult { request_id: request_id.clone(), result: RequestResult::Failure },
        );
        let ghost mid_p = state.payments_view();
        let ghost mid_t = state.transactions_view();
        let _ = remove_transaction(state, ack_uid, &request_id);
        proof {
            assert(spec_remove_all(mid_p, mid_t, items.skip(k as int)) == spec_remove_all(
                state.payments_view(),
                state.transactions_view(),
                items.skip(k + 1),
            ));
        }
        k = k + 1;
    }
    proof {
        assert(items.skip(old_q.len() as int) =~= Seq::<(Seq<u8>, Seq<u8>)>::empty());
    }
    results
}

/// Cancel pending forwarded requests queued toward a friend, for one
/// currency or for all. Each covered request is reported upstream: a
/// cancel is queued on the backwards queue of the friend the request came
/// from, or, when this node originated it, a failure carrying its id is
/// surfaced and its open transaction closed.
#[verifier::rlimit(100)]
pub fn cancel_pending_requests(
    state: &mut FunderState,
    friend_public_key: &PublicKey,
    currency_choice: &CurrencyChoice,
) -> (r: Vec<TransactionResult>)
    requires
        old(state).keys_wf(),
    ensures
        final(state).keys_wf(),
        forall|k: int| 0 <= k < r@.len() ==> (#[trigger] r@[k]).result is Failure,
        forall|j: int|
            0 <= j < old(state).friends@.len() && (#[trigger] old(state).friends@[j]).0@
                == friend_public_key@ && old(state).friends@[j].1.consistent() ==> {
                &&& final(state).friends@[j].1.consistent()
                &&& final(state).friends@[j].1.mc_view() == old(state).friends@[j].1.mc_view()
                &&& match currency_choice {
                    CurrencyChoice::All => final(state).friends@[j].1.pending_requests_view().len()
                        == 0,
                    CurrencyChoice::One(c) => forall|k: int|
                        0 <= k < final(state).friends@[j].1.pending_requests_view().len() ==> (
                        #[trigger] final(state).friends@[j].1.pending_requests_view()[k]).0 != c@,
                }
                &&& forall|k: int|
                    0 <= k < old(state).friends@[j].1.pending_requests_view().len()
                        && currency_covered(
                        currency_choice,
                        (#[trigger] old(state).friends@[j].1.pending_requests_view()[k]).0,
                    ) ==> {
                        let cur = old(state).friends@[j].1.pending_requests_view()[k].0;
                        let rid = old(
                            state,
                        ).friends@[j].1.pending_requests_view()[k].1.request_id;
                        &&& (request_has_origin(old(state).friends@, rid)
                            ==> cancel_queued_at_origin(
                            old(state).friends@,
                            final(state).friends@,
                            cur,
                            rid,
                        ))
                        &&& (!request_has_origin(old(state).friends@, rid) ==> exists|w: int|
                            0 <= w < r@.len() && (#[trigger] r@[w]).request_id@ == rid
                                && r@[w].result is Failure)
                    }
            },
{
    let ghost pre = *state;
    let idx = match find_friend_index(&state.friends, friend_public_key) {
        None => {
            return Vec::new();
        },
        Some(i) => i,
    };
    proof {
        assert forall|j: int|
            0 <= j < pre.friends@.len() && (#[trigger] pre.friends@[j]).0@
                == friend_public_key@ implies j == idx as int by {
            if j != idx as int {
                let a = if j < idx as int { j } else { idx as int };
                let b = if j < idx as int { idx as int } else { j };
                assert(pre.friend_keys()[a] != pre.friend_keys()[b]);
                assert(pre.friend_keys()[j] == pre.friends@[j].0@);
                assert(pre.friend_keys()[idx as int] == pre.friends@[idx as int].0@);
            }
        }
    }
    let consistent = match &state.friends[idx].1.channel_status {
        crate::friend::ChannelStatus::Consistent(_) => true,
        crate::friend::ChannelStatus::Inconsistent(_) => false,
    };
    if !consistent {
        return Vec::new();
    }
    let ghost old_q = pre.friends@[idx as int].1.pending_requests_view();
    // Phase one: drain the forwarded-request queue.
    let mut drained: Vec<(Currency, RequestSendFundsOp)> = Vec::new();
    loop
        invariant
            idx < state.friends@.len(),
            state.friends@.len() == pre.friends@.len(),
            state.keys_wf(),
            state.friends@[idx as int].1.consistent(),
            state.friends@[idx as int].0@ == pre.friends@[idx as int].0@,
            state.friends@[idx as int].1.mc_view() == pre.friends@[idx as int].1.mc_view(),
            state.payments_view() == pre.payments_view(),
            state.transactions_view() == pre.transactions_view(),
            forall|j: int|
                0 <= j < pre.friends@.len() && j != idx as int ==> state.friends@[j]
                    == pre.friends@[j],
            drained@.len() <= old_q.len(),
            state.friends@[idx as int].1.pending_requests_view() == old_q.skip(
                drained@.len() as int,
            ),
            forall|m: int|
                0 <= m < drained@.len() ==> ((#[trigger] drained@[m]).0@, drained@[m].1@)
                    == old_q[m],
        ensures
            state.keys_wf(),
            idx < state.friends@.len(),
            state.friends@.len() == pre.friends@.len(),
            state.friends@[idx as int].0@ == pre.friends@[idx as int].0@,
            state.friends@[idx as int].1.consistent(),
            state.friends@[idx as int].1.pending_requests_view().len() == 0,
            state.friends@[idx as int].1.mc_view() == pre.friends@[idx as int].1.mc_view(),
            state.payments_view() == pre.payments_view(),
            state.transactions_view() == pre.transactions_view(),
            forall|j: int|
                0 <= j < pre.friends@.len() && j != idx as int ==> state.friends@[j]
                    == pre.friends@[j],
            drained@.len() == old_q.len(),
            forall|m: int|
                0 <= m < drained@.len() ==> ((#[trigger] drained@[m]).0@, drained@[m].1@)
                    == old_q[m],
        decreases old_q.len() - drained@.len(),
    {
        let next: Option<(Currency, RequestSendFundsOp)> = match &state.friends[idx]
            .1
            .channel_status {
            crate::friend::ChannelStatus::Consistent(cc) => {
                if cc.pending_requests.len() == 0 {
                    None
                } else {
                    let front = &cc.pending_requests[0];
                    Some((front.0.clone(), front.1.clone()))
                }
            },
            crate::friend::ChannelStatus::Inconsistent(_) => None,
        };
        let ghost before = *state;
        match next {
            None => {
                proof {
                    assert(old_q.skip(drained@.len() as int).len() == 0);
                    assert(drained@.len() == old_q.len());
                }
                break ;
            },
            Some(item) => {
                proof {
                    assert(old_q.skip(drained@.len() as int).len() > 0);
                    assert(before.friends@[idx as int].1.pending_requests_view()[0] == (
                    item.0@, item.1@));
                    assert(old_q.skip(drained@.len() as int)[0] == old_q[drained@.len() as int]);
                }
                let pair = &mut state.friends[idx];
                pair.1.mutate(&FriendMutation::PopFrontPendingRequest);
                drained.push(item);
                proof {
                    assert(old_q.skip((drained@.len() - 1) as int).skip(1) =~= old_q.skip(
                        drained@.len() as int,
                    ));
                    assert(state.payments_view() =~= before.payments_view());
                    assert(state.transactions_view() =~= before.transactions_view());
                    assert(state.friend_keys() =~= before.friend_keys());
                }
            },
        }
    }
    // Split the drained requests into the ones this sweep covers and the
    // ones that go back onto the queue.
    let mut cancels: Vec<(Currency, RequestSendFundsOp)> = Vec::new();
    let mut keeps: Vec<(Currency, RequestSendFundsOp)> = Vec::new();
    let mut i: usize = 0;
    while i < drained.len()
        invariant
            i <= drained@.len(),
            drained@.len() == old_q.len(),
            forall|m: int|
                0 <= m < drained@.len() ==> ((#[trigger] drained@[m]).0@, drained@[m].1@)
                    == old_q[m],
            match currency_choice {
                CurrencyChoice::One(c) => forall|m: int|
                    0 <= m < keeps@.len() ==> (#[trigger] keeps@[m]).0@ != c@,
                CurrencyChoice::All => keeps@.len() == 0,
            },
            forall|k: int|
                0 <= k < i && currency_covered(currency_choice, (#[trigger] old_q[k]).0)
                    ==> exists|m: int|
                    0 <= m < cancels@.len() && ((#[trigger] cancels@[m]).0@, cancels@[m].1@)
                        == old_q[k],
        decreases drained@.len() - i,
    {
        let item = (drained[i].0.clone(), drained[i].1.clone());
        let ghost pre_cancels = cancels@;
        match currency_choice {
            CurrencyChoice::All => {
                cancels.push(item);
                proof {
                    assert((cancels@[cancels@.len() - 1].0@, cancels@[cancels@.len() - 1].1@)
                        == old_q[i as int]);
                }
            },
            CurrencyChoice::One(c) => {
                if crate::crypto::bytes_eq(&item.0.bytes, &c.bytes) {
                    cancels.push(item);
                    proof {
                        assert((cancels@[cancels@.len() - 1].0@, cancels@[cancels@.len() - 1].1@)
                            == old_q[i as int]);
                    }
                } else {
                    keeps.push(item);
                    proof {
                        assert(!currency_covered(currency_choice, old_q[i as int].0));
                    }
                }
            },
        }
        proof {
            assert forall|k: int|
                0 <= k < i + 1 && currency_covered(currency_choice, (#[trigger] old_q[k]).0)
                    implies exists|m: int|
                    0 <= m < cancels@.len() && ((#[trigger] cancels@[m]).0@, cancels@[m].1@)
                        == old_q[k] by {
                if k < i {
                    let m = choose|m: int|
                        0 <= m < pre_cancels.len() && ((#[trigger] pre_cancels[m]).0@,
                        pre_cancels[m].1@) == old_q[k];
                    assert(cancels@[m] == pre_cancels[m]);
                } else {
                    assert((cancels@[cancels@.len() - 1].0@, cancels@[cancels@.len() - 1].1@)
                        == old_q[k]);
                }
            }
        }
        i = i + 1;
    }
    // Put the kept requests back, in their original relative order.
    let mut k: usize = 0;
    while k < keeps.len()
        invariant
            k <= keeps@.len(),
            idx < state.friends@.len(),
            state.friends@.len() == pre.friends@.len(),
            state.keys_wf(),
            state.friends@[idx as int].0@ == pre.friends@[idx as int].0@,
            state.friends@[idx as int].1.consistent(),
            state.friends@[idx as int].1.mc_view() == pre.friends@[idx as int].1.mc_view(),
            state.payments_view() == pre.payments_view(),
            state.transactions_view() == pre.transactions_view(),
            forall|j: int|
                0 <= j < pre.friends@.len() && j != idx as int ==> state.friends@[j]
                    == pre.friends@[j],
            match currency_choice {
                CurrencyChoice::One(c) => (forall|m: int|
                    0 <= m < keeps@.len() ==> (#[trigger] keeps@[m]).0@ != c@) && forall|m: int|
                    0 <= m < state.friends@[idx as int].1.pending_requests_view().len() ==> (
                    #[trigger] state.friends@[idx as int].1.pending_requests_view()[m]).0 != c@,
                CurrencyChoice::All => keeps@.len() == 0 && state.friends@[idx as int]
                    .1
                    .pending_requests_view().len() == 0,
            },
        decreases keeps@.len() - k,
    {
        let item_currency = keeps[k].0.clone();
        let item_request = keeps[k].1.clone();
        let ghost cv = item_currency@;
        let ghost before = *state;
        let pair = &mut state.friends[idx];
        pair.1.mutate(&FriendMutation::PushBackPendingRequest(item_currency, item_request));
        proof {
            assert(state.payments_view() =~= before.payments_view());
            assert(state.transactions_view() =~= before.transactions_view());
            assert(state.friend_keys() =~= before.friend_keys());
            match currency_choice {
                CurrencyChoice::One(c) => {
                    assert(cv == keeps@[k as int].0@);
                    assert(cv != c@);
                    let q = state.friends@[idx as int].1.pending_requests_view();
                    let oldq = before.friends@[idx as int].1.pending_requests_view();
                    assert(q == oldq.push((cv, keeps@[k as int].1@)));
                    assert forall|m: int| 0 <= m < q.len() implies (#[trigger] q[m]).0 != c@ by {
                        if m < oldq.len() {
                            assert(q[m] == oldq[m]);
                        } else {
                            assert(q[m].0 == cv);
                        }
                    }
                },
                CurrencyChoice::All => {},
            }
        }
        k = k + 1;
    }
    // Phase two: report every covered request upstream.
    let mut results: Vec<TransactionResult> = Vec::new();
    let mut n: usize = 0;
    while n < cancels.len()
        invariant
            n <= cancels@.len(),
            idx < state.friends@.len(),
            state.friends@.len() == pre.friends@.len(),
            state.keys_wf(),
            state.friends@[idx as int].0@ == pre.friends@[idx as int].0@,
            state.friends@[idx as int].1.consistent(),
            state.friends@[idx as int].1.mc_view() == pre.friends@[idx as int].1.mc_view(),
            forall|j: int|
                0 <= j < pre.friends@.len() ==> ((#[trigger] state.friends@[j]).1.consistent()
                    == pre.friends@[j].1.consistent() && (pre.friends@[j].1.consistent()
                    ==> state.friends@[j].1.mc_view() == pre.friends@[j].1.mc_view())
                    && state.friends@[j].0@ == pre.friends@[j].0@),
            forall|m: int| 0 <= m < results@.len() ==> (#[trigger] results@[m]).result is Failure,
            match currency_choice {
                CurrencyChoice::One(c) => forall|m: int|
                    0 <= m < state.friends@[idx as int].1.pending_requests_view().len() ==> (
                    #[trigger] state.friends@[idx as int].1.pending_requests_view()[m]).0 != c@,
                CurrencyChoice::All => state.friends@[idx as int].1.pending_requests_view().len()
                    == 0,
            },
            forall|m: int|
                0 <= m < n ==> {
                    let cur = (#[trigger] cancels@[m]).0@;
                    let rid = cancels@[m].1@.request_id;
                    &&& (request_has_origin(pre.friends@, rid) ==> cancel_queued_at_origin(
                        pre.friends@,
                        state.friends@,
                        cur,
                        rid,
                    ))
                    &&& (!request_has_origin(pre.friends@, rid) ==> exists|w: int|
                        0 <= w < results@.len() && (#[trigger] results@[w]).request_id@ == rid
                            && results@[w].result is Failure)
                },
        decreases cancels@.len() - n,
    {
        let request_id = cancels[n].1.request_id.clone();
        let currency = cancels[n].0.clone();
        let ghost before = *state;
        proof {
            lemma_origin_stable(pre.friends@, before.friends@, request_id@);
        }
        match find_request_origin(state, &request_id) {
            Some(origin_public_key) => {
                // We found the friend that is the origin of this request;
                // we owe it a cancel message.
                proof {
                    assert(request_has_origin(before.friends@, request_id@));
                }
                let replied = reply_with_cancel(state, &origin_public_key, &currency, &request_id);
                proof {
                    assert(replied);
                    // The cancel now sits at the origin friend.
                    let j0 = choose|j: int|
                        0 <= j < before.friends@.len() && (#[trigger] before.friends@[j]).0@
                            == origin_public_key@ && before.friends@[j].1.consistent()
                            && crate::mutual_credit::pt_contains(
                            before.friends@[j].1.mc_view().remote_pending,
                            request_id@,
                        );
                    let newq = state.friends@[j0].1.pending_backwards_ops_view();
                    let oldq2 = before.friends@[j0].1.pending_backwards_ops_view();
                    assert(newq == oldq2.push(
                        (
                            currency@,
                            BackwardsOpView::Cancel(
                                CancelSendFundsOpView { request_id: request_id@ },
                            ),
                        ),
                    ));
                    assert(newq[oldq2.len() as int] == (
                        currency@,
                        BackwardsOpView::Cancel(CancelSendFundsOpView { request_id: request_id@ }),
                    ));
                    assert(pre.friends@[j0].1.consistent());
                    assert(crate::mutual_credit::pt_contains(
                        pre.friends@[j0].1.mc_view().remote_pending,
                        request_id@,
                    ));
                    assert(cancel_queued_at_origin(
                        pre.friends@,
                        state.friends@,
                        currency@,
                        request_id@,
                    ));
                    // Earlier claims survive the push.
                    assert forall|m: int| 0 <= m < n implies {
                        let cur = (#[trigger] cancels@[m]).0@;
                        let rid = cancels@[m].1@.request_id;
                        request_has_origin(pre.friends@, rid) ==> cancel_queued_at_origin(
                            pre.friends@,
                            state.friends@,
                            cur,
                            rid,
                        )
                    } by {
                        let cur = cancels@[m].0@;
                        let rid = cancels@[m].1@.request_id;
                        if request_has_origin(pre.friends@, rid) {
                            lemma_cancel_queued_monotone(
                                pre.friends@,
                                before.friends@,
                                state.friends@,
                                cur,
                                rid,
                            );
                        }
                    }
                    // The friends' identities, consistency and units are
                    // untouched by queueing a cancel.
                    assert forall|j: int| 0 <= j < pre.friends@.len() implies ((
                    #[trigger] state.friends@[j]).1.consistent() == pre.friends@[j].1.consistent()
                        && (pre.friends@[j].1.consistent() ==> state.friends@[j].1.mc_view()
                        == pre.friends@[j].1.mc_view()) && state.friends@[j].0@
                        == pre.friends@[j].0@) by {
                        assert(state.friend_keys()[j] == state.friends@[j].0@);
                        assert(before.friend_keys()[j] == before.friends@[j].0@);
                        if before.friends@[j].0@ == origin_public_key@ {
                            if j != j0 {
                                let a = if j < j0 { j } else { j0 };
                                let b = if j < j0 { j0 } else { j };
                                assert(before.friend_keys()[a] != before.friend_keys()[b]);
                                assert(before.friend_keys()[j0] == before.friends@[j0].0@);
                            }
                            assert(j == j0);
                        } else {
                            assert(state.friends@[j] == before.friends@[j]);
                        }
                    }
                }
            },
            None => {
                // We are the origin of this request.
                proof {
                    assert(!request_has_origin(before.friends@, request_id@));
                }
                let ghost pre_results = results@;
                results.push(
                    TransactionResult {
                        request_id: request_id.clone(),
                        result: RequestResult::Failure,
                    },
                );
                proof {
                    assert(results@[results@.len() - 1].request_id@ == request_id@);
                    // Earlier failure reports are still in place.
                    assert forall|m: int|
                        0 <= m < n && !request_has_origin(
                            pre.friends@,
                            (#[trigger] cancels@[m]).1@.request_id,
                        ) implies exists|w: int|
                        0 <= w < results@.len() && (#[trigger] results@[w]).request_id@
                            == cancels@[m].1@.request_id && results@[w].result is Failure by {
                        let rid = cancels@[m].1@.request_id;
                        let w = choose|w: int|
                            0 <= w < pre_results.len() && (#[trigger] pre_results[w]).request_id@
                                == rid && pre_results[w].result is Failure;
                        assert(results@[w] == pre_results[w]);
                    }
                }
                let _ = remove_transaction(state, request_id.clone(), &request_id);
            },
        }
        n = n + 1;
    }
    proof {
        assert forall|k: int|
            0 <= k < old_q.len() && currency_covered(currency_choice, (#[trigger] old_q[k]).0)
                implies {
                let cur = old_q[k].0;
                let rid = old_q[k].1.request_id;
                &&& (request_has_origin(pre.friends@, rid) ==> cancel_queued_at_origin(
                    pre.friends@,
                    state.friends@,
                    cur,
                    rid,
                ))
                &&& (!request_has_origin(pre.friends@, rid) ==> exists|w: int|
                    0 <= w < results@.len() && (#[trigger] results@[w]).request_id@ == rid
                        && results@[w].result is Failure)
            } by {
            let m = choose|m: int|
                0 <= m < cancels@.len() && ((#[trigger] cancels@[m]).0@, cancels@[m].1@)
                    == old_q[k];
            assert(cancels@[m].0@ == old_q[k].0);
            assert(cancels@[m].1@.request_id == old_q[k].1.request_id);
        }
    }
    results
}

/// The (acknowledgement id, request id) pairs a sweep over a friend's
/// local pending transactions closes: the k-th supplied acknowledgement
/// id, or the request id itself once they run out.
pub open spec fn local_sweep_items(
    pending: Seq<crate::messages::PendingTransactionView>,
    acks: Seq<Uid>,
) -> Seq<(Seq<u8>, Seq<u8>)> {
    Seq::new(
        pending.len(),
        |k: int|
            (
                if k < acks.len() {
                    acks[k]@
                } else {
                    pending[k].request_id
                },
                pending[k].request_id,
            ),
    )
}

/// What a cancellation sweep does to the payment and open-transaction
/// maps: requests with an upstream origin leave them untouched (the
/// cancel goes to that friend instead), requests this node originated
/// are closed by `spec_remove_transaction`, in order.
pub open spec fn spec_cancel_fold(
    friends: Seq<(PublicKey, crate::friend::FriendState)>,
    payments: Seq<(Seq<u8>, PaymentView)>,
    transactions: Seq<(Seq<u8>, Seq<u8>)>,
    items: Seq<(Seq<u8>, Seq<u8>)>,
) -> (Seq<(Seq<u8>, PaymentView)>, Seq<(Seq<u8>, Seq<u8>)>)
    decreases items.len(),
{
    if items.len() == 0 {
        (payments, transactions)
    } else if request_has_origin(friends, items[0].1) {
        spec_cancel_fold(friends, payments, transactions, items.skip(1))
    } else {
        let step = spec_remove_transaction(payments, transactions, items[0].0, items[0].1);
        spec_cancel_fold(friends, step.0, step.1, items.skip(1))
    }
}

/// Cancel the outgoing local transactions that are already inside a
/// friend's token channel, possibly already communicated to the remote
/// side. This is a violent operation that breaks our promises for
/// forwarded requests; it is only done when unfriending. Every local
/// pending transaction is reported upstream: a cancel is queued on its
/// origin friend's backwards queue, or, when this node originated it, a
/// failure carrying its id is surfaced and its open transaction closed.
#[verifier::rlimit(100)]
pub fn cancel_local_pending_transactions(
    state: &mut FunderState,
    friend_public_key: &PublicKey,
    currency: &Currency,
    ack_uids: &Vec<Uid>,
) -> (r: Vec<TransactionResult>)
    requires
        old(state).keys_wf(),
    ensures
        final(state).keys_wf(),
        forall|k: int| 0 <= k < r@.len() ==> (#[trigger] r@[k]).result is Failure,
        forall|j: int|
            0 <= j < old(state).friends@.len() && (#[trigger] old(state).friends@[j]).0@
                == friend_public_key@ && old(state).friends@[j].1.consistent() ==> {
                &&& final(state).friends@[j].1.consistent()
                &&& final(state).friends@[j].1.mc_view() == old(state).friends@[j].1.mc_view()
                &&& forall|k: int|
                    0 <= k < old(state).friends@[j].1.mc_view().local_pending.len() ==> {
                        let rid = (#[trigger] old(
                            state,
                        ).friends@[j].1.mc_view().local_pending[k]).request_id;
                        &&& (request_has_origin(old(state).friends@, rid)
                            ==> cancel_queued_at_origin(
                            old(state).friends@,
                            final(state).friends@,
                            currency@,
                            rid,
                        ))
                        &&& (!request_has_origin(old(state).friends@, rid) ==> exists|w: int|
                            0 <= w < r@.len() && (#[trigger] r@[w]).request_id@ == rid
                                && r@[w].result is Failure)
                    }
                &&& (final(state).payments_view(), final(state).transactions_view())
                    == spec_cancel_fold(
                    old(state).friends@,
                    old(state).payments_view(),
                    old(state).transactions_view(),
                    local_sweep_items(
                        old(state).friends@[j].1.mc_view().local_pending,
                        ack_uids@,
                    ),
                )
            },
{
    let ghost pre = *state;
    let idx = match find_friend_index(&state.friends, friend_public_key) {
        None => {
            return Vec::new();
        },
        Some(i) => i,
    };
    proof {
        assert forall|j: int|
            0 <= j < pre.friends@.len() && (#[trigger] pre.friends@[j]).0@
                == friend_public_key@ implies j == idx as int by {
            if j != idx as int {
                let a = if j < idx as int { j } else { idx as int };
                let b = if j < idx as int { idx as int } else { j };
                assert(pre.friend_keys()[a] != pre.friend_keys()[b]);
                assert(pre.friend_keys()[j] == pre.friends@[j].0@);
                assert(pre.friend_keys()[idx as int] == pre.friends@[idx as int].0@);
            }
        }
    }
    // Mark all pending local transactions on this friend's channel: as
    // the channel is going away, no response will ever arrive for them.
    let pending_local = match &state.friends[idx].1.channel_status {
        crate::friend::ChannelStatus::Inconsistent(_) => {
            return Vec::new();
        },
        crate::friend::ChannelStatus::Consistent(cc) => crate::mutual_credit::clone_pending_transactions(
            &cc.token_channel.token_channel.state.pending_transactions.local,
        ),
    };
    let ghost old_pending = pre.friends@[idx as int].1.mc_view().local_pending;
    let ghost items = local_sweep_items(old_pending, ack_uids@);
    proof {
        assert(pending_local@.len() == old_pending.len());
        assert(items.skip(0) =~= items);
    }
    let mut results: Vec<TransactionResult> = Vec::new();
    let mut k: usize = 0;
    while k < pending_local.len()
        invariant
            k <= pending_local@.len(),
            idx < state.friends@.len(),
            state.friends@.len() == pre.friends@.len(),
            state.keys_wf(),
            pre.keys_wf(),
            old_pending == pre.friends@[idx as int].1.mc_view().local_pending,
            items == local_sweep_items(old_pending, ack_uids@),
            items.len() == old_pending.len(),
            pending_local@.len() == old_pending.len(),
            forall|m: int|
                0 <= m < pending_local@.len() ==> (#[trigger] pending_local@[m])@
                    == old_pending[m],
            forall|j: int|
                0 <= j < pre.friends@.len() ==> ((#[trigger] state.friends@[j]).1.consistent()
                    == pre.friends@[j].1.consistent() && (pre.friends@[j].1.consistent()
                    ==> state.friends@[j].1.mc_view() == pre.friends@[j].1.mc_view())
                    && state.friends@[j].0@ == pre.friends@[j].0@),
            forall|m: int| 0 <= m < results@.len() ==> (#[trigger] results@[m]).result is Failure,
            forall|m: int|
                0 <= m < k ==> {
                    let rid = (#[trigger] old_pending[m]).request_id;
                    &&& (request_has_origin(pre.friends@, rid) ==> cancel_queued_at_origin(
                        pre.friends@,
                        state.friends@,
                        currency@,
                        rid,
                    ))
                    &&& (!request_has_origin(pre.friends@, rid) ==> exists|w: int|
                        0 <= w < results@.len() && (#[trigger] results@[w]).request_id@ == rid
                            && results@[w].result is Failure)
                },
            spec_cancel_fold(pre.friends@, pre.payments_view(), pre.transactions_view(), items)
                == spec_cancel_fold(
                pre.friends@,
                state.payments_view(),
                state.transactions_view(),
                items.skip(k as int),
            ),
        decreases pending_local@.len() - k,
    {
        let request_id = pending_local[k].request_id.clone();
        let ghost before = *state;
        proof {
            assert(request_id@ == old_pending[k as int].request_id);
            assert(items[k as int].1 == old_pending[k as int].request_id);
            assert(items.skip(k as int)[0] == items[k as int]);
            assert(items.skip(k as int).skip(1) =~= items.skip(k + 1));
            lemma_origin_stable(pre.friends@, before.friends@, request_id@);
        }
        match find_request_origin(state, &request_id) {
            Some(origin_public_key) => {
                // We found the friend that is the origin of this request;
                // we send it a cancel message.
                proof {
                    assert(request_has_origin(before.friends@, request_id@));
                }
                let replied = reply_with_cancel(state, &origin_public_key, currency, &request_id);
                proof {
                    assert(replied);
                    let j0 = choose|j: int|
                        0 <= j < before.friends@.len() && (#[trigger] before.friends@[j]).0@
                            == origin_public_key@ && before.friends@[j].1.consistent()
                            && crate::mutual_credit::pt_contains(
                            before.friends@[j].1.mc_view().remote_pending,
                            request_id@,
                        );
                    let newq = state.friends@[j0].1.pending_backwards_ops_view();
                    let oldq2 = before.friends@[j0].1.pending_backwards_ops_view();
                    assert(newq == oldq2.push(
                        (
                            currency@,
                            BackwardsOpView::Cancel(
                                CancelSendFundsOpView { request_id: request_id@ },
                            ),
                        ),
                    ));
                    assert(newq[oldq2.len() as int] == (
                        currency@,
                        BackwardsOpView::Cancel(CancelSendFundsOpView { request_id: request_id@ }),
                    ));
                    assert(pre.friends@[j0].1.consistent());
                    assert(crate::mutual_credit::pt_contains(
                        pre.friends@[j0].1.mc_view().remote_pending,
                        request_id@,
                    ));
                    assert(cancel_queued_at_origin(
                        pre.friends@,
                        state.friends@,
                        currency@,
                        request_id@,
                    ));
                    // Earlier queued cancels survive the push.
                    assert forall|m: int| 0 <= m < k implies {
                        let rid = (#[trigger] old_pending[m]).request_id;
                        request_has_origin(pre.friends@, rid) ==> cancel_queued_at_origin(
                            pre.friends@,
                            state.friends@,
                            currency@,
                            rid,
                        )
                    } by {
                        let rid = old_pending[m].request_id;
                        if request_has_origin(pre.friends@, rid) {
                            lemma_cancel_queued_monotone(
                                pre.friends@,
                                before.friends@,
                                state.friends@,
                                currency@,
                                rid,
                            );
                        }
                    }
                    // The friends' identities, consistency and units are
                    // untouched by queueing a cancel.
                    assert forall|j: int| 0 <= j < pre.friends@.len() implies ((
                    #[trigger] state.friends@[j]).1.consistent() == pre.friends@[j].1.consistent()
                        && (pre.friends@[j].1.consistent() ==> state.friends@[j].1.mc_view()
                        == pre.friends@[j].1.mc_view()) && state.friends@[j].0@
                        == pre.friends@[j].0@) by {
                        assert(state.friend_keys()[j] == state.friends@[j].0@);
                        assert(before.friend_keys()[j] == before.friends@[j].0@);
                        if before.friends@[j].0@ == origin_public_key@ {
                            if j != j0 {
                                let a = if j < j0 { j } else { j0 };
                                let b = if j < j0 { j0 } else { j };
                                assert(before.friend_keys()[a] != before.friend_keys()[b]);
                                assert(before.friend_keys()[j0] == before.friends@[j0].0@);
                            }
                            assert(j == j0);
                        } else {
                            assert(state.friends@[j] == before.friends@[j]);
                        }
                    }
                    // Payments and transactions are untouched, so the fold
                    // takes its skip branch.
                    assert(spec_cancel_fold(
                        pre.friends@,
                        state.payments_view(),
                        state.transactions_view(),
                        items.skip(k as int),
                    ) == spec_cancel_fold(
                        pre.friends@,
                        state.payments_view(),
                        state.transactions_view(),
                        items.skip(k + 1),
                    ));
                }
            },
            None => {
                // We are the origin of this request; surface a failure.
                proof {
                    assert(!request_has_origin(before.friends@, request_id@));
                }
                let ack_uid = if k < ack_uids.len() {
                    ack_uids[k].clone()
                } else {
                    request_id.clone()
                };
                proof {
                    assert(ack_uid@ == items[k as int].0);
                }
                let ghost pre_results = results@;
                results.push(
                    TransactionResult {
                        request_id: request_id.clone(),
                        result: RequestResult::Failure,
                    },
                );
                proof {
                    assert(results@[results@.len() - 1].request_id@ == request_id@);
                    // Earlier failure reports are still in place.
                    assert forall|m: int|
                        0 <= m < k && !request_has_origin(
                            pre.friends@,
                            (#[trigger] old_pending[m]).request_id,
                        ) implies exists|w: int|
                        0 <= w < results@.len() && (#[trigger] results@[w]).request_id@
                            == old_pending[m].request_id && results@[w].result is Failure by {
                        let rid = old_pending[m].request_id;
                        let w = choose|w: int|
                            0 <= w < pre_results.len() && (#[trigger] pre_results[w]).request_id@
                                == rid && pre_results[w].result is Failure;
                        assert(results@[w] == pre_results[w]);
                    }
                }
                let ghost mid_p = state.payments_view();
                let ghost mid_t = state.transactions_view();
                let _ = remove_transaction(state, ack_uid, &request_id);
                proof {
                    assert(spec_cancel_fold(pre.friends@, mid_p, mid_t, items.skip(k as int))
                        == spec_cancel_fold(
                        pre.friends@,
                        state.payments_view(),
                        state.transactions_view(),
                        items.skip(k + 1),
                    ));
                }
            },
        }
        k = k + 1;
    }
    proof {
        assert(items.skip(old_pending.len() as int) =~= Seq::<(Seq<u8>, Seq<u8>)>::empty());
    }
    results
}

} // verus!
