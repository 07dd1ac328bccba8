//! The mutual-credit unit: bilateral accounting for one friend. It keeps
//! the balance, the trust ceilings both sides granted, the credits frozen
//! by in-flight requests, and the pending transactions of both sides.
//!
//! All mutation goes through `McMutation` values, so that a state change
//! can be logged and replayed; the operation processors validate an
//! incoming or outgoing operation and emit the mutations it causes.

use vstd::prelude::*;

use crate::MAX_FUNDER_DEBT;
use crate::crypto::{PublicKey, Uid, bytes_eq, hash_lock_of, signature_valid};
use crate::messages::{
    FriendTcOp, FriendTcOpView, PendingTransaction, PendingTransactionView, RequestSendFundsOp,
    RequestSendFundsOpView, RequestsStatus, TransactionStage, TransactionStageView, route_valid,
};
use crate::signature_buff::response_signature_buffer;

verus! {

// ---------------------------------------------------------------------------
// Pending-transaction sequences: view, lookup, sums
// ---------------------------------------------------------------------------

/// The spec image of a vector of pending transactions.
pub open spec fn pts_view(s: Seq<PendingTransaction>) -> Seq<PendingTransactionView> {
    s.map_values(|p: PendingTransaction| p@)
}

/// Whether a transaction with this request id is present.
pub open spec fn pt_contains(s: Seq<PendingTransactionView>, id: Seq<u8>) -> bool {
    exists|i: int| 0 <= i < s.len() && (#[trigger] s[i]).request_id == id
}

/// The position of the transaction with this request id.
pub open spec fn pt_index(s: Seq<PendingTransactionView>, id: Seq<u8>) -> int {
    choose|i: int| 0 <= i < s.len() && (#[trigger] s[i]).request_id == id
}

/// The transaction with this request id.
pub open spec fn pt_get(s: Seq<PendingTransactionView>, id: Seq<u8>) -> PendingTransactionView {
    s[pt_index(s, id)]
}

/// The sequence with the transaction of this request id removed.
pub open spec fn pt_remove(s: Seq<PendingTransactionView>, id: Seq<u8>) -> Seq<
    PendingTransactionView,
> {
    if pt_contains(s, id) {
        s.remove(pt_index(s, id))
    } else {
        s
    }
}

/// The sequence with the stage of the transaction of this request id
/// replaced.
pub open spec fn pt_set_stage(
    s: Seq<PendingTransactionView>,
    id: Seq<u8>,
    stage: TransactionStageView,
) -> Seq<PendingTransactionView> {
    if pt_contains(s, id) {
        s.update(pt_index(s, id), PendingTransactionView { stage, ..pt_get(s, id) })
    } else {
        s
    }
}

/// No two transactions share a request id.
pub open spec fn pt_ids_unique(s: Seq<PendingTransactionView>) -> bool {
    forall|i: int, j: int|
        0 <= i < j < s.len() ==> (#[trigger] s[i]).request_id != (#[trigger] s[j]).request_id
}

/// Under unique ids, any position holding the id is the chosen one.
pub proof fn lemma_pt_index_unique(s: Seq<PendingTransactionView>, id: Seq<u8>, j: int)
    requires
        pt_ids_unique(s),
        0 <= j < s.len(),
        s[j].request_id == id,
    ensures
        pt_contains(s, id),
        pt_index(s, id) == j,
{
    assert(pt_contains(s, id));
    let i = pt_index(s, id);
    if i != j {
        if i < j {
            assert(s[i].request_id != s[j].request_id);
        } else {
            assert(s[j].request_id != s[i].request_id);
        }
    }
}

/// The credits reserved by a list of pending transactions.
pub open spec fn sum_amounts(s: Seq<PendingTransactionView>) -> int
    decreases s.len(),
{
    if s.len() == 0 {
        0
    } else {
        s[0].amount() + sum_amounts(s.skip(1))
    }
}

/// The reserved credits are never negative.
pub proof fn lemma_sum_amounts_nonneg(s: Seq<PendingTransactionView>)
    ensures
        sum_amounts(s) >= 0,
    decreases s.len(),
{
    if s.len() > 0 {
        lemma_sum_amounts_nonneg(s.skip(1));
    }
}

/// Appending a transaction adds its amount to the sum.
pub proof fn lemma_sum_amounts_push(s: Seq<PendingTransactionView>, x: PendingTransactionView)
    ensures
        sum_amounts(s.push(x)) == sum_amounts(s) + x.amount(),
    decreases s.len(),
{
    if s.len() == 0 {
        assert(s.push(x).skip(1) =~= Seq::<PendingTransactionView>::empty());
        assert(s.push(x)[0] == x);
        assert(sum_amounts(s.push(x)) == s.push(x)[0].amount() + sum_amounts(s.push(x).skip(1)));
        assert(sum_amounts(Seq::<PendingTransactionView>::empty()) == 0);
    } else {
        lemma_sum_amounts_push(s.skip(1), x);
        assert(s.push(x).skip(1) =~= s.skip(1).push(x));
        assert(s.push(x)[0] == s[0]);
        assert(sum_amounts(s.push(x)) == s.push(x)[0].amount() + sum_amounts(s.push(x).skip(1)));
        assert(sum_amounts(s) == s[0].amount() + sum_amounts(s.skip(1)));
    }
}

/// Removing a transaction subtracts its amount from the sum.
pub proof fn lemma_sum_amounts_remove(s: Seq<PendingTransactionView>, i: int)
    requires
        0 <= i < s.len(),
    ensures
        sum_amounts(s.remove(i)) == sum_amounts(s) - s[i].amount(),
    decreases i,
{
    if i == 0 {
        assert(s.remove(0) =~= s.skip(1));
    } else {
        lemma_sum_amounts_remove(s.skip(1), i - 1);
        assert(s.remove(i).skip(1) =~= s.skip(1).remove(i - 1));
        assert(s.remove(i)[0] == s[0]);
        assert(s.skip(1)[i - 1] == s[i]);
    }
}

/// Replacing a transaction adjusts the sum by the amount difference.
pub proof fn lemma_sum_amounts_update(
    s: Seq<PendingTransactionView>,
    i: int,
    x: PendingTransactionView,
)
    requires
        0 <= i < s.len(),
    ensures
        sum_amounts(s.update(i, x)) == sum_amounts(s) - s[i].amount() + x.amount(),
    decreases i,
{
    if i == 0 {
        assert(s.update(0, x).skip(1) =~= s.skip(1));
        assert(s.update(0, x)[0] == x);
    } else {
        lemma_sum_amounts_update(s.skip(1), i - 1, x);
        assert(s.update(i, x).skip(1) =~= s.skip(1).update(i - 1, x));
        assert(s.update(i, x)[0] == s[0]);
        assert(s.skip(1)[i - 1] == s[i]);
    }
}

/// Any single transaction's amount is at most the total sum.
pub proof fn lemma_sum_amounts_element(s: Seq<PendingTransactionView>, i: int)
    requires
        0 <= i < s.len(),
    ensures
        s[i].amount() <= sum_amounts(s),
{
    lemma_sum_amounts_remove(s, i);
    lemma_sum_amounts_nonneg(s.remove(i));
}

// ---------------------------------------------------------------------------
// The mutual credit state
// ---------------------------------------------------------------------------

/// Spec image of a whole mutual-credit unit.
#[verifier::ext_equal]
pub ghost struct MutualCreditView {
    pub local_public_key: Seq<u8>,
    pub remote_public_key: Seq<u8>,
    pub balance: i128,
    pub local_max_debt: u128,
    pub remote_max_debt: u128,
    pub local_pending_debt: u128,
    pub remote_pending_debt: u128,
    pub local_pending: Seq<PendingTransactionView>,
    pub remote_pending: Seq<PendingTransactionView>,
    pub local_status: RequestsStatus,
    pub remote_status: RequestsStatus,
}

impl MutualCreditView {
    /// The unit's internal invariant: ceilings within the representable
    /// debt range, unique ids, pending debts equal to the reserved sums,
    /// and the balance within the range every later operation keeps
    /// representable.
    pub open spec fn wf(&self) -> bool {
        &&& self.local_max_debt <= MAX_FUNDER_DEBT
        &&& self.remote_max_debt <= MAX_FUNDER_DEBT
        &&& pt_ids_unique(self.local_pending)
        &&& pt_ids_unique(self.remote_pending)
        &&& self.local_pending_debt == sum_amounts(self.local_pending)
        &&& self.remote_pending_debt == sum_amounts(self.remote_pending)
        &&& self.balance - self.local_pending_debt >= -(MAX_FUNDER_DEBT as int)
        &&& self.balance + self.remote_pending_debt <= MAX_FUNDER_DEBT as int
    }

    /// The credit-safety bounds: neither side reserves beyond the trust
    /// it was granted.
    pub open spec fn within_debt_limits(&self) -> bool {
        &&& self.balance - self.local_pending_debt >= -(self.local_max_debt as int)
        &&& self.balance + self.remote_pending_debt <= self.remote_max_debt as int
    }
}

/// Public identities of the two sides of a unit.
#[derive(Debug)]
pub struct McIdents {
    /// My public key
    pub local_public_key: PublicKey,
    /// Friend's public key
    pub remote_public_key: PublicKey,
}

impl Clone for McIdents {
    fn clone(&self) -> (r: Self)
        ensures
            r.local_public_key@ == self.local_public_key@,
            r.remote_public_key@ == self.remote_public_key@,
    {
        McIdents {
            local_public_key: self.local_public_key.clone(),
            remote_public_key: self.remote_public_key.clone(),
        }
    }
}

/// The numeric side of a unit: balance, ceilings and frozen credits.
#[derive(Clone, Copy, Debug, PartialEq, Eq, Structural)]
pub struct McBalance {
    /// Amount of credits this side has against the remote side.
    /// The other side keeps the negation of this value.
    pub balance: i128,
    /// Maximum possible local debt
    pub local_max_debt: u128,
    /// Maximum possible remote debt
    pub remote_max_debt: u128,
    /// Frozen credits by our side
    pub local_pending_debt: u128,
    /// Frozen credits by the remote side
    pub remote_pending_debt: u128,
}

impl McBalance {
    pub fn new(balance: i128) -> (r: McBalance)
        ensures
            r.balance == balance,
            r.local_max_debt == 0,
            r.remote_max_debt == 0,
            r.local_pending_debt == 0,
            r.remote_pending_debt == 0,
    {
        McBalance {
            balance,
            local_max_debt: 0,
            remote_max_debt: 0,
            local_pending_debt: 0,
            remote_pending_debt: 0,
        }
    }
}

/// Copy a vector of pending transactions.
pub fn clone_pending_transactions(v: &Vec<PendingTransaction>) -> (r: Vec<PendingTransaction>)
    ensures
        pts_view(r@) == pts_view(v@),
        r@.len() == v@.len(),
        forall|i: int| 0 <= i < v@.len() ==> r@[i]@ == v@[i]@,
{
    let mut out: Vec<PendingTransaction> = Vec::new();
    let mut i: usize = 0;
    while i < v.len()
        invariant
            i <= v.len(),
            out@.len() == i,
            forall|j: int| 0 <= j < i ==> out@[j]@ == v@[j]@,
        decreases v.len() - i,
    {
        out.push(v[i].clone());
        i = i + 1;
    }
    assert(pts_view(out@) =~= pts_view(v@));
    out
}

/// The pending transactions of both sides of a unit.
#[derive(Debug)]
pub struct McPendingTransactions {
    /// Pending transactions that were opened locally and not yet completed
    pub local: Vec<PendingTransaction>,
    /// Pending transactions that were opened remotely and not yet completed
    pub remote: Vec<PendingTransaction>,
}

impl Clone for McPendingTransactions {
    fn clone(&self) -> (r: Self)
        ensures
            pts_view(r.local@) == pts_view(self.local@),
            pts_view(r.remote@) == pts_view(self.remote@),
    {
        McPendingTransactions {
            local: clone_pending_transactions(&self.local),
            remote: clone_pending_transactions(&self.remote),
        }
    }
}

/// The request gates of both sides of a unit.
#[derive(Clone, Copy, Debug, PartialEq, Eq, Structural)]
pub struct McRequestsStatus {
    // Local is open/closed for incoming requests:
    pub local: RequestsStatus,
    // Remote is open/closed for incoming requests:
    pub remote: RequestsStatus,
}

impl McRequestsStatus {
    pub fn new() -> (r: McRequestsStatus)
        ensures
            r.local == RequestsStatus::Closed,
            r.remote == RequestsStatus::Closed,
    {
        McRequestsStatus { local: RequestsStatus::Closed, remote: RequestsStatus::Closed }
    }
}

/// All the state of a mutual-credit unit.
#[derive(Debug)]
pub struct MutualCreditState {
    /// Public identities of local and remote side
    pub idents: McIdents,
    /// Current credit balance with respect to remote side
    pub balance: McBalance,
    /// Requests in progress
    pub pending_transactions: McPendingTransactions,
    /// Can local or remote side open requests?
    pub requests_status: McRequestsStatus,
}

impl View for MutualCreditState {
    type V = MutualCreditView;

    open spec fn view(&self) -> MutualCreditView {
        MutualCreditView {
            local_public_key: self.idents.local_public_key@,
            remote_public_key: self.idents.remote_public_key@,
            balance: self.balance.balance,
            local_max_debt: self.balance.local_max_debt,
            remote_max_debt: self.balance.remote_max_debt,
            local_pending_debt: self.balance.local_pending_debt,
            remote_pending_debt: self.balance.remote_pending_debt,
            local_pending: pts_view(self.pending_transactions.local@),
            remote_pending: pts_view(self.pending_transactions.remote@),
            local_status: self.requests_status.local,
            remote_status: self.requests_status.remote,
        }
    }
}

impl Clone for MutualCreditState {
    fn clone(&self) -> (r: Self)
        ensures
            r@ == self@,
    {
        let r = MutualCreditState {
            idents: self.idents.clone(),
            balance: self.balance,
            pending_transactions: self.pending_transactions.clone(),
            requests_status: self.requests_status,
        };
        assert(r@ =~= self@);
        r
    }
}

/// A bilateral mutual-credit channel for one (friend, currency) pair.
#[derive(Debug)]
pub struct MutualCredit {
    pub state: MutualCreditState,
}

impl View for MutualCredit {
    type V = MutualCreditView;

    open spec fn view(&self) -> MutualCreditView {
        self.state@
    }
}

impl Clone for MutualCredit {
    fn clone(&self) -> (r: Self)
        ensures
            r@ == self@,
    {
        MutualCredit { state: self.state.clone() }
    }
}

/// Spec image of a state mutation.
pub ghost enum McMutationView {
    SetLocalRequestsStatus(RequestsStatus),
    SetRemoteRequestsStatus(RequestsStatus),
    SetLocalMaxDebt(u128),
    SetRemoteMaxDebt(u128),
    SetBalance(i128),
    InsertLocalPendingTransaction(PendingTransactionView),
    RemoveLocalPendingTransaction(Seq<u8>),
    SetLocalPendingTransactionStage(Seq<u8>, TransactionStageView),
    InsertRemotePendingTransaction(PendingTransactionView),
    RemoveRemotePendingTransaction(Seq<u8>),
    SetRemotePendingTransactionStage(Seq<u8>, TransactionStageView),
    SetLocalPendingDebt(u128),
    SetRemotePendingDebt(u128),
}

/// One durable change to a mutual-credit unit's state.
#[derive(Debug)]
pub enum McMutation {
    SetLocalRequestsStatus(RequestsStatus),
    SetRemoteRequestsStatus(RequestsStatus),
    SetLocalMaxDebt(u128),
    SetRemoteMaxDebt(u128),
    SetBalance(i128),
    InsertLocalPendingTransaction(PendingTransaction),
    RemoveLocalPendingTransaction(Uid),
    SetLocalPendingTransactionStage(Uid, TransactionStage),
    InsertRemotePendingTransaction(PendingTransaction),
    RemoveRemotePendingTransaction(Uid),
    SetRemotePendingTransactionStage(Uid, TransactionStage),
    SetLocalPendingDebt(u128),
    SetRemotePendingDebt(u128),
}

impl View for McMutation {
    type V = McMutationView;

    open spec fn view(&self) -> McMutationView {
        match self {
            McMutation::SetLocalRequestsStatus(s) => McMutationView::SetLocalRequestsStatus(*s),
            McMutation::SetRemoteRequestsStatus(s) => McMutationView::SetRemoteRequestsStatus(*s),
            McMutation::SetLocalMaxDebt(x) => McMutationView::SetLocalMaxDebt(*x),
            McMutation::SetRemoteMaxDebt(x) => McMutationView::SetRemoteMaxDebt(*x),
            McMutation::SetBalance(b) => McMutationView::SetBalance(*b),
            McMutation::InsertLocalPendingTransaction(pt) =>
                McMutationView::InsertLocalPendingTransaction(pt@),
            McMutation::RemoveLocalPendingTransaction(id) =>
                McMutationView::RemoveLocalPendingTransaction(id@),
            McMutation::SetLocalPendingTransactionStage(id, st) =>
                McMutationView::SetLocalPendingTransactionStage(id@, st@),
            McMutation::InsertRemotePendingTransaction(pt) =>
                McMutationView::InsertRemotePendingTransaction(pt@),
            McMutation::RemoveRemotePendingTransaction(id) =>
                McMutationView::RemoveRemotePendingTransaction(id@),
            McMutation::SetRemotePendingTransactionStage(id, st) =>
                McMutationView::SetRemotePendingTransactionStage(id@, st@),
            McMutation::SetLocalPendingDebt(x) => McMutationView::SetLocalPendingDebt(*x),
            McMutation::SetRemotePendingDebt(x) => McMutationView::SetRemotePendingDebt(*x),
        }
    }
}

impl Clone for McMutation {
    fn clone(&self) -> (r: Self)
        ensures
            r@ == self@,
    {
        match self {
            McMutation::SetLocalRequestsStatus(s) => McMutation::SetLocalRequestsStatus(*s),
            McMutation::SetRemoteRequestsStatus(s) => McMutation::SetRemoteRequestsStatus(*s),
            McMutation::SetLocalMaxDebt(x) => McMutation::SetLocalMaxDebt(*x),
            McMutation::SetRemoteMaxDebt(x) => McMutation::SetRemoteMaxDebt(*x),
            McMutation::SetBalance(b) => McMutation::SetBalance(*b),
            McMutation::InsertLocalPendingTransaction(pt) =>
                McMutation::InsertLocalPendingTransaction(pt.clone()),
            McMutation::RemoveLocalPendingTransaction(id) =>
                McMutation::RemoveLocalPendingTransaction(id.clone()),
            McMutation::SetLocalPendingTransactionStage(id, st) =>
                McMutation::SetLocalPendingTransactionStage(id.clone(), st.clone()),
            McMutation::InsertRemotePendingTransaction(pt) =>
                McMutation::InsertRemotePendingTransaction(pt.clone()),
            McMutation::RemoveRemotePendingTransaction(id) =>
                McMutation::RemoveRemotePendingTransaction(id.clone()),
            McMutation::SetRemotePendingTransactionStage(id, st) =>
                McMutation::SetRemotePendingTransactionStage(id.clone(), st.clone()),
            McMutation::SetLocalPendingDebt(x) => McMutation::SetLocalPendingDebt(*x),
            McMutation::SetRemotePendingDebt(x) => McMutation::SetRemotePendingDebt(*x),
        }
    }
}

/// What one mutation does to a unit's state. Inserting over an existing id
/// replaces it; removing or restaging a missing id leaves the state as it
/// was.
pub open spec fn spec_mc_mutate(mc: MutualCreditView, m: McMutationView) -> MutualCreditView {
    match m {
        McMutationView::SetLocalRequestsStatus(s) => MutualCreditView { local_status: s, ..mc },
        McMutationView::SetRemoteRequestsStatus(s) => MutualCreditView { remote_status: s, ..mc },
        McMutationView::SetLocalMaxDebt(x) => MutualCreditView { local_max_debt: x, ..mc },
        McMutationView::SetRemoteMaxDebt(x) => MutualCreditView { remote_max_debt: x, ..mc },
        McMutationView::SetBalance(b) => MutualCreditView { balance: b, ..mc },
        McMutationView::InsertLocalPendingTransaction(pt) => MutualCreditView {
            local_pending: if pt_contains(mc.local_pending, pt.request_id) {
                mc.local_pending.update(pt_index(mc.local_pending, pt.request_id), pt)
            } else {
                mc.local_pending.push(pt)
            },
            ..mc
        },
        McMutationView::RemoveLocalPendingTransaction(id) => MutualCreditView {
            local_pending: pt_remove(mc.local_pending, id),
            ..mc
        },
        McMutationView::SetLocalPendingTransactionStage(id, st) => MutualCreditView {
            local_pending: pt_set_stage(mc.local_pending, id, st),
            ..mc
        },
        McMutationView::InsertRemotePendingTransaction(pt) => MutualCreditView {
            remote_pending: if pt_contains(mc.remote_pending, pt.request_id) {
                mc.remote_pending.update(pt_index(mc.remote_pending, pt.request_id), pt)
            } else {
                mc.remote_pending.push(pt)
            },
            ..mc
        },
        McMutationView::RemoveRemotePendingTransaction(id) => MutualCreditView {
            remote_pending: pt_remove(mc.remote_pending, id),
            ..mc
        },
        McMutationView::SetRemotePendingTransactionStage(id, st) => MutualCreditView {
            remote_pending: pt_set_stage(mc.remote_pending, id, st),
            ..mc
        },
        McMutationView::SetLocalPendingDebt(x) => MutualCreditView { local_pending_debt: x, ..mc },
        McMutationView::SetRemotePendingDebt(x) => MutualCreditView {
            remote_pending_debt: x,
            ..mc
        },
    }
}

/// Applying a list of mutations in order.
pub open spec fn spec_mc_mutate_all(mc: MutualCreditView, ms: Seq<McMutationView>) -> MutualCreditView
    decreases ms.len(),
{
    if ms.len() == 0 {
        mc
    } else {
        spec_mc_mutate_all(spec_mc_mutate(mc, ms[0]), ms.skip(1))
    }
}

/// Add an unsigned amount to a signed balance, when the result is known
/// to stay representable.
pub fn add_unsigned_i128(b: i128, a: u128) -> (r: i128)
    requires
        b + a <= i128::MAX,
    ensures
        r == b + a,
{
    if a <= i128::MAX as u128 {
        let ai = a as i128;
        b + ai
    } else {
        // a exceeds i128::MAX, so b must be negative; compute a - (-b).
        let nb = (-(b + 1)) as u128 + 1;
        assert(nb == -(b as int));
        let d = a - nb;
        d as i128
    }
}

/// Subtract an unsigned amount from a signed balance, when the result is
/// known to stay representable.
pub fn sub_unsigned_i128(b: i128, a: u128) -> (r: i128)
    requires
        b - a >= i128::MIN,
    ensures
        r == b - a,
{
    if a <= i128::MAX as u128 {
        let ai = a as i128;
        b - ai
    } else {
        // a exceeds i128::MAX, so b must not be negative; compute -(a - b).
        let bu = b as u128;
        let d = a - bu;
        if d <= i128::MAX as u128 {
            -(d as i128)
        } else {
            i128::MIN
        }
    }
}

/// Law: replaying a mutation log in two batches is the same as replaying
/// it whole. Together with the processors' guarantee that applying their
/// emitted mutations reproduces the state they computed, this lets the
/// persisted log of a unit be replayed from the initial state to rebuild
/// the exact in-memory state, however the log was batched.
pub proof fn lemma_mc_mutate_all_append(
    mc: MutualCreditView,
    ms1: Seq<McMutationView>,
    ms2: Seq<McMutationView>,
)
    ensures
        spec_mc_mutate_all(mc, ms1 + ms2) == spec_mc_mutate_all(
            spec_mc_mutate_all(mc, ms1),
            ms2,
        ),
    decreases ms1.len(),
{
    if ms1.len() == 0 {
        assert(ms1 + ms2 =~= ms2);
    } else {
        lemma_mc_mutate_all_append(spec_mc_mutate(mc, ms1[0]), ms1.skip(1), ms2);
        assert((ms1 + ms2).skip(1) =~= ms1.skip(1) + ms2);
        assert((ms1 + ms2)[0] == ms1[0]);
    }
}

/// Find the position of a pending transaction by request id.
pub(crate) fn find_pt_index(v: &Vec<PendingTransaction>, id: &Uid) -> (r: Option<usize>)
    ensures
        match r {
            Some(i) => i < v@.len() && v@[i as int]@.request_id == id@ && forall|j: int|
                0 <= j < i ==> (#[trigger] v@[j])@.request_id != id@,
            None => !pt_contains(pts_view(v@), id@),
        },
{
    let mut i: usize = 0;
    while i < v.len()
        invariant
            i <= v.len(),
            forall|j: int| 0 <= j < i ==> (#[trigger] v@[j])@.request_id != id@,
        decreases v.len() - i,
    {
        if bytes_eq(&v[i].request_id.bytes, &id.bytes) {
            return Some(i);
        }
        i = i + 1;
    }
    assert forall|k: int| 0 <= k < pts_view(v@).len() implies (#[trigger] pts_view(v@)[k]).request_id
        != id@ by {
        assert(pts_view(v@)[k] == v@[k]@);
    }
    None
}

impl MutualCredit {
    /// Create a fresh unit with the given starting balance; all ceilings,
    /// reservations and gates start at zero and closed.
    pub fn new(
        local_public_key: &PublicKey,
        remote_public_key: &PublicKey,
        balance: i128,
    ) -> (r: MutualCredit)
        requires
            balance != i128::MIN,
        ensures
            r@.local_public_key == local_public_key@,
            r@.remote_public_key == remote_public_key@,
            r@.balance == balance,
            r@.local_max_debt == 0,
            r@.remote_max_debt == 0,
            r@.local_pending_debt == 0,
            r@.remote_pending_debt == 0,
            r@.local_pending == Seq::<PendingTransactionView>::empty(),
            r@.remote_pending == Seq::<PendingTransactionView>::empty(),
            r@.local_status == RequestsStatus::Closed,
            r@.remote_status == RequestsStatus::Closed,
            r@.wf(),
    {
        let r = MutualCredit {
            state: MutualCreditState {
                idents: McIdents {
                    local_public_key: local_public_key.clone(),
                    remote_public_key: remote_public_key.clone(),
                },
                balance: McBalance::new(balance),
                pending_transactions: McPendingTransactions { local: Vec::new(), remote: Vec::new() },
                requests_status: McRequestsStatus::new(),
            },
        };
        assert(r@.local_pending =~= Seq::<PendingTransactionView>::empty());
        assert(r@.remote_pending =~= Seq::<PendingTransactionView>::empty());
        r
    }

    pub fn state(&self) -> (r: &MutualCreditState)
        ensures
            r@ == self@,
    {
        &self.state
    }

    /// Calculate the balance committed on a channel reset: the current
    /// balance plus the credits the remote side still has frozen.
    pub fn balance_for_reset(&self) -> (r: i128)
        requires
            self@.wf(),
        ensures
            r == self@.balance + self@.remote_pending_debt,
    {
        let b = self.state.balance.balance;
        let rp = self.state.balance.remote_pending_debt;
        add_unsigned_i128(b, rp)
    }

    /// Apply one mutation. Every state change of a unit goes through here,
    /// so that the caller can persist the mutation log.
    pub fn mutate(&mut self, mc_mutation: &McMutation)
        requires
            pt_ids_unique(old(self)@.local_pending),
            pt_ids_unique(old(self)@.remote_pending),
        ensures
            final(self)@ == spec_mc_mutate(old(self)@, mc_mutation@),
    {
        let ghost pre = self@;
        match mc_mutation {
            McMutation::SetLocalRequestsStatus(s) => {
                self.state.requests_status.local = *s;
            },
            McMutation::SetRemoteRequestsStatus(s) => {
                self.state.requests_status.remote = *s;
            },
            McMutation::SetLocalMaxDebt(x) => {
                self.state.balance.local_max_debt = *x;
            },
            McMutation::SetRemoteMaxDebt(x) => {
                self.state.balance.remote_max_debt = *x;
            },
            McMutation::SetBalance(b) => {
                self.state.balance.balance = *b;
            },
            McMutation::InsertLocalPendingTransaction(pt) => {
                match find_pt_index(&self.state.pending_transactions.local, &pt.request_id) {
                    Some(i) => {
                        proof {
                            lemma_pt_index_unique(pre.local_pending, pt@.request_id, i as int);
                        }
                        self.state.pending_transactions.local.set(i, pt.clone());
                        assert(pts_view(self.state.pending_transactions.local@)
                            =~= pre.local_pending.update(
                            pt_index(pre.local_pending, pt@.request_id),
                            pt@,
                        ));
                    },
                    None => {
                        self.state.pending_transactions.local.push(pt.clone());
                        assert(pts_view(self.state.pending_transactions.local@)
                            =~= pre.local_pending.push(pt@));
                    },
                }
            },
            McMutation::RemoveLocalPendingTransaction(id) => {
                match find_pt_index(&self.state.pending_transactions.local, id) {
                    Some(i) => {
                        proof {
                            lemma_pt_index_unique(pre.local_pending, id@, i as int);
                        }
                        let _ = self.state.pending_transactions.local.remove(i);
                        assert(pts_view(self.state.pending_transactions.local@)
                            =~= pre.local_pending.remove(pt_index(pre.local_pending, id@)));
                    },
                    None => {},
                }
            },
            McMutation::SetLocalPendingTransactionStage(id, st) => {
                match find_pt_index(&self.state.pending_transactions.local, id) {
                    Some(i) => {
                        proof {
                            lemma_pt_index_unique(pre.local_pending, id@, i as int);
                        }
                        let old_pt = &self.state.pending_transactions.local[i];
                        let new_pt = PendingTransaction {
                            request_id: old_pt.request_id.clone(),
                            currency: old_pt.currency.clone(),
                            route: old_pt.route.clone(),
                            dest_payment: old_pt.dest_payment,
                            total_dest_payment: old_pt.total_dest_payment,
                            invoice_id: old_pt.invoice_id.clone(),
                            left_fees: old_pt.left_fees,
                            src_hashed_lock: old_pt.src_hashed_lock.clone(),
                            stage: st.clone(),
                        };
                        self.state.pending_transactions.local.set(i, new_pt);
                        assert(pts_view(self.state.pending_transactions.local@)
                            =~= pt_set_stage(pre.local_pending, id@, st@));
                    },
                    None => {},
                }
            },
            McMutation::InsertRemotePendingTransaction(pt) => {
                match find_pt_index(&self.state.pending_transactions.remote, &pt.request_id) {
                    Some(i) => {
                        proof {
                            lemma_pt_index_unique(pre.remote_pending, pt@.request_id, i as int);
                        }
                        self.state.pending_transactions.remote.set(i, pt.clone());
                        assert(pts_view(self.state.pending_transactions.remote@)
                            =~= pre.remote_pending.update(
                            pt_index(pre.remote_pending, pt@.request_id),
                            pt@,
                        ));
                    },
                    None => {
                        self.state.pending_transactions.remote.push(pt.clone());
                        assert(pts_view(self.state.pending_transactions.remote@)
                            =~= pre.remote_pending.push(pt@));
                    },
                }
            },
            McMutation::RemoveRemotePendingTransaction(id) => {
                match find_pt_index(&self.state.pending_transactions.remote, id) {
                    Some(i) => {
                        proof {
                            lemma_pt_index_unique(pre.remote_pending, id@, i as int);
                        }
                        let _ = self.state.pending_transactions.remote.remove(i);
                        assert(pts_view(self.state.pending_transactions.remote@)
                            =~= pre.remote_pending.remove(pt_index(pre.remote_pending, id@)));
                    },
                    None => {},
                }
            },
            McMutation::SetRemotePendingTransactionStage(id, st) => {
                match find_pt_index(&self.state.pending_transactions.remote, id) {
                    Some(i) => {
                        proof {
                            lemma_pt_index_unique(pre.remote_pending, id@, i as int);
                        }
                        let old_pt = &self.state.pending_transactions.remote[i];
                        let new_pt = PendingTransaction {
                            request_id: old_pt.request_id.clone(),
                            currency: old_pt.currency.clone(),
                            route: old_pt.route.clone(),
                            dest_payment: old_pt.dest_payment,
                            total_dest_payment: old_pt.total_dest_payment,
                            invoice_id: old_pt.invoice_id.clone(),
                            left_fees: old_pt.left_fees,
                            src_hashed_lock: old_pt.src_hashed_lock.clone(),
                            stage: st.clone(),
                        };
                        self.state.pending_transactions.remote.set(i, new_pt);
                        assert(pts_view(self.state.pending_transactions.remote@)
                            =~= pt_set_stage(pre.remote_pending, id@, st@));
                    },
                    None => {},
                }
            },
            McMutation::SetLocalPendingDebt(x) => {
                self.state.balance.local_pending_debt = *x;
            },
            McMutation::SetRemotePendingDebt(x) => {
                self.state.balance.remote_pending_debt = *x;
            },
        }
        assert(self@ =~= spec_mc_mutate(pre, mc_mutation@));
    }
}

// ---------------------------------------------------------------------------
// Operation processing
// ---------------------------------------------------------------------------

/// Why an incoming operation was rejected.
#[derive(Clone, Copy, Debug, PartialEq, Eq, Structural)]
pub enum ProcessOperationError {
    RequestsAlreadyOpen,
    RequestsAlreadyDisabled,
    RemoteMaxDebtTooLarge(u128),
    InvalidRoute,
    PkPairNotInRoute,
    LocalRequestsClosed,
    CreditsCalcOverflow,
    RequestAlreadyExists,
    RequestDoesNotExist,
    NotExpectingResponse,
    InvalidResponseSignature,
    NotExpectingCollect,
    InvalidSrcPlainLock,
    InvalidDestPlainLock,
    InsufficientTrust,
}

/// Why an outgoing operation could not be queued.
#[derive(Clone, Copy, Debug, PartialEq, Eq, Structural)]
pub enum QueueOperationError {
    RequestsAlreadyOpen,
    RequestsAlreadyDisabled,
    RemoteMaxDebtTooLarge(u128),
    InvalidRoute,
    PkPairNotInRoute,
    RemoteRequestsClosed,
    CreditsCalcOverflow,
    RequestAlreadyExists,
    RequestDoesNotExist,
    NotExpectingResponse,
    InvalidResponseSignature,
    NotExpectingCollect,
    InvalidSrcPlainLock,
    InvalidDestPlainLock,
    InsufficientTrust,
}

/// The position of an error inside an operation batch.
#[derive(Clone, Copy, Debug, PartialEq, Eq, Structural)]
pub struct ProcessTransListError {
    pub index: usize,
    pub process_trans_error: ProcessOperationError,
}

/// A response handed upward after validation, with the request it answers.
#[derive(Debug)]
pub struct IncomingResponseSendFunds {
    pub pending_transaction: PendingTransaction,
    pub incoming_response: crate::messages::ResponseSendFundsOp,
}

/// A cancel handed upward after validation, with the request it closes.
#[derive(Debug)]
pub struct IncomingCancelSendFunds {
    pub pending_transaction: PendingTransaction,
}

/// A collect handed upward after validation, with the request it settles.
#[derive(Debug)]
pub struct IncomingCollectSendFunds {
    pub pending_transaction: PendingTransaction,
    pub incoming_collect: crate::messages::CollectSendFundsOp,
}

/// What an accepted incoming operation means to the layers above.
#[derive(Debug)]
pub enum IncomingMessage {
    Request(RequestSendFundsOp),
    Response(IncomingResponseSendFunds),
    Cancel(IncomingCancelSendFunds),
    Collect(IncomingCollectSendFunds),
}

/// Resulting tasks to perform after processing an incoming operation.
#[derive(Debug)]
pub struct ProcessOperationOutput {
    pub incoming_message: Option<IncomingMessage>,
    pub mc_mutations: Vec<McMutation>,
}

/// The spec image of a list of mutations.
pub open spec fn mc_muts_view(s: Seq<McMutation>) -> Seq<McMutationView> {
    s.map_values(|m: McMutation| m@)
}

/// An adjacent pair `(a, b)` occurs on the route.
pub open spec fn pair_in_route(route: Seq<Seq<u8>>, a: Seq<u8>, b: Seq<u8>) -> bool {
    exists|i: int| 0 <= i < route.len() - 1 && (#[trigger] route[i]) == a && route[i + 1] == b
}

/// The pending transaction a request creates.
pub open spec fn pt_of_request(r: RequestSendFundsOpView) -> PendingTransactionView {
    PendingTransactionView {
        request_id: r.request_id,
        currency: r.currency,
        route: r.route,
        dest_payment: r.dest_payment,
        total_dest_payment: r.total_dest_payment,
        invoice_id: r.invoice_id,
        left_fees: r.left_fees,
        src_hashed_lock: r.src_hashed_lock,
        stage: TransactionStageView::Request,
    }
}

/// Create the pending transaction that remembers a request.
pub fn create_pending_transaction(request_send_funds: &RequestSendFundsOp) -> (r:
    PendingTransaction)
    ensures
        r@ == pt_of_request(request_send_funds@),
{
    PendingTransaction {
        request_id: request_send_funds.request_id.clone(),
        currency: request_send_funds.currency.clone(),
        route: request_send_funds.route.clone(),
        dest_payment: request_send_funds.dest_payment,
        total_dest_payment: request_send_funds.total_dest_payment,
        invoice_id: request_send_funds.invoice_id.clone(),
        left_fees: request_send_funds.left_fees,
        src_hashed_lock: request_send_funds.src_hashed_lock.clone(),
        stage: TransactionStage::Request,
    }
}

/// What an incoming request does to a unit: it reserves
/// `dest_payment + left_fees` on the remote side, after the route, the
/// local gate, the id and the granted trust have been checked.
pub open spec fn spec_process_request(
    mc: MutualCreditView,
    r: RequestSendFundsOpView,
) -> Result<MutualCreditView, ProcessOperationError> {
    if !route_valid(r.route) {
        Err(ProcessOperationError::InvalidRoute)
    } else if !pair_in_route(r.route, mc.remote_public_key, mc.local_public_key) {
        Err(ProcessOperationError::PkPairNotInRoute)
    } else if mc.local_status != RequestsStatus::Open {
        Err(ProcessOperationError::LocalRequestsClosed)
    } else if r.dest_payment + r.left_fees > u128::MAX {
        Err(ProcessOperationError::CreditsCalcOverflow)
    } else if pt_contains(mc.remote_pending, r.request_id) {
        Err(ProcessOperationError::RequestAlreadyExists)
    } else if mc.remote_pending_debt + r.dest_payment + r.left_fees > u128::MAX {
        Err(ProcessOperationError::CreditsCalcOverflow)
    } else if mc.balance + mc.remote_pending_debt + r.dest_payment + r.left_fees
        > mc.remote_max_debt {
        Err(ProcessOperationError::InsufficientTrust)
    } else {
        Ok(MutualCreditView {
            remote_pending: mc.remote_pending.push(pt_of_request(r)),
            remote_pending_debt: (mc.remote_pending_debt + r.dest_payment + r.left_fees) as u128,
            ..mc
        })
    }
}

/// What an incoming response does: the matching local pending transaction,
/// still in its request stage, advances to the response stage once the
/// destination's signature checks out. No balance moves yet.
pub open spec fn spec_process_response(
    mc: MutualCreditView,
    r: crate::messages::ResponseSendFundsOpView,
) -> Result<MutualCreditView, ProcessOperationError> {
    if !pt_contains(mc.local_pending, r.request_id) {
        Err(ProcessOperationError::RequestDoesNotExist)
    } else {
        let pt = pt_get(mc.local_pending, r.request_id);
        if pt.stage != TransactionStageView::Request {
            Err(ProcessOperationError::NotExpectingResponse)
        } else if pt.route.len() == 0 {
            Err(ProcessOperationError::InvalidRoute)
        } else if !signature_valid(
            response_signature_buffer(r, pt),
            pt.route[pt.route.len() - 1],
            r.signature,
        ) {
            Err(ProcessOperationError::InvalidResponseSignature)
        } else {
            Ok(MutualCreditView {
                local_pending: pt_set_stage(
                    mc.local_pending,
                    r.request_id,
                    TransactionStageView::Response(r.dest_hashed_lock),
                ),
                ..mc
            })
        }
    }
}

/// What an incoming cancel does: the matching local pending transaction is
/// dropped and its reservation released; the balance does not move.
pub open spec fn spec_process_cancel(
    mc: MutualCreditView,
    c: crate::messages::CancelSendFundsOpView,
) -> Result<MutualCreditView, ProcessOperationError> {
    if !pt_contains(mc.local_pending, c.request_id) {
        Err(ProcessOperationError::RequestDoesNotExist)
    } else {
        let pt = pt_get(mc.local_pending, c.request_id);
        Ok(MutualCreditView {
            local_pending: pt_remove(mc.local_pending, c.request_id),
            local_pending_debt: (mc.local_pending_debt - pt.amount()) as u128,
            ..mc
        })
    }
}

/// What an incoming collect does: with both plain locks matching their
/// commitments, the matching responded transaction is settled — the
/// reservation is released and the balance moves in the peer's favour.
pub open spec fn spec_process_collect(
    mc: MutualCreditView,
    c: crate::messages::CollectSendFundsOpView,
) -> Result<MutualCreditView, ProcessOperationError> {
    if !pt_contains(mc.local_pending, c.request_id) {
        Err(ProcessOperationError::RequestDoesNotExist)
    } else {
        let pt = pt_get(mc.local_pending, c.request_id);
        match pt.stage {
            TransactionStageView::Request => Err(ProcessOperationError::NotExpectingCollect),
            TransactionStageView::Response(dest_hashed_lock) => {
                if hash_lock_of(c.dest_plain_lock) != dest_hashed_lock {
                    Err(ProcessOperationError::InvalidDestPlainLock)
                } else if hash_lock_of(c.src_plain_lock) != pt.src_hashed_lock {
                    Err(ProcessOperationError::InvalidSrcPlainLock)
                } else {
                    Ok(MutualCreditView {
                        local_pending: pt_remove(mc.local_pending, c.request_id),
                        local_pending_debt: (mc.local_pending_debt - pt.amount()) as u128,
                        balance: (mc.balance - pt.amount()) as i128,
                        ..mc
                    })
                }
            },
        }
    }
}

/// What one incoming operation, sent by the peer, does to a unit.
pub open spec fn spec_process_incoming(
    mc: MutualCreditView,
    op: FriendTcOpView,
) -> Result<MutualCreditView, ProcessOperationError> {
    match op {
        FriendTcOpView::EnableRequests => {
            if mc.remote_status == RequestsStatus::Open {
                Err(ProcessOperationError::RequestsAlreadyOpen)
            } else {
                Ok(MutualCreditView { remote_status: RequestsStatus::Open, ..mc })
            }
        },
        FriendTcOpView::DisableRequests => {
            if mc.remote_status == RequestsStatus::Closed {
                Err(ProcessOperationError::RequestsAlreadyDisabled)
            } else {
                Ok(MutualCreditView { remote_status: RequestsStatus::Closed, ..mc })
            }
        },
        FriendTcOpView::SetRemoteMaxDebt(x) => {
            if x > MAX_FUNDER_DEBT {
                Err(ProcessOperationError::RemoteMaxDebtTooLarge(x))
            } else {
                Ok(MutualCreditView { local_max_debt: x, ..mc })
            }
        },
        FriendTcOpView::RequestSendFunds(r) => spec_process_request(mc, r),
        FriendTcOpView::ResponseSendFunds(r) => spec_process_response(mc, r),
        FriendTcOpView::CancelSendFunds(c) => spec_process_cancel(mc, c),
        FriendTcOpView::CollectSendFunds(c) => spec_process_collect(mc, c),
    }
}

/// Applying a whole operation batch, stopping at the first error.
pub open spec fn spec_process_ops(
    mc: MutualCreditView,
    ops: Seq<FriendTcOpView>,
) -> Result<MutualCreditView, ProcessOperationError>
    decreases ops.len(),
{
    if ops.len() == 0 {
        Ok(mc)
    } else {
        match spec_process_incoming(mc, ops[0]) {
            Ok(s) => spec_process_ops(s, ops.skip(1)),
            Err(e) => Err(e),
        }
    }
}

/// Extending a prefix of a batch by one operation: the fold over the
/// longer prefix is the shorter prefix's state pushed through that
/// operation.
pub proof fn lemma_spec_process_ops_take(mc: MutualCreditView, ops: Seq<FriendTcOpView>, i: int)
    requires
        0 <= i < ops.len(),
    ensures
        spec_process_ops(mc, ops.take(i + 1)) == match spec_process_ops(mc, ops.take(i)) {
            Ok(s) => spec_process_incoming(s, ops[i]),
            Err(e) => Err(e),
        },
    decreases i,
{
    if i == 0 {
        assert(ops.take(0) =~= Seq::<FriendTcOpView>::empty());
        assert(ops.take(1)[0] == ops[0]);
        assert(ops.take(1).skip(1) =~= Seq::<FriendTcOpView>::empty());
        match spec_process_incoming(mc, ops[0]) {
            Ok(s) => {
                assert(spec_process_ops(mc, ops.take(1)) == spec_process_ops(
                    s,
                    ops.take(1).skip(1),
                ));
            },
            Err(e) => {},
        }
    } else {
        assert(ops.take(i + 1)[0] == ops[0]);
        assert(ops.take(i)[0] == ops[0]);
        assert(ops.take(i + 1).skip(1) =~= ops.skip(1).take(i));
        assert(ops.take(i).skip(1) =~= ops.skip(1).take(i - 1));
        assert(ops.skip(1)[i - 1] == ops[i]);
        match spec_process_incoming(mc, ops[0]) {
            Ok(s) => {
                lemma_spec_process_ops_take(s, ops.skip(1), i - 1);
            },
            Err(e) => {},
        }
    }
}

/// Every accepted incoming operation keeps the unit well formed.
pub proof fn lemma_process_incoming_preserves_wf(mc: MutualCreditView, op: FriendTcOpView)
    requires
        mc.wf(),
        spec_process_incoming(mc, op) is Ok,
    ensures
        spec_process_incoming(mc, op)->Ok_0.wf(),
{
    let after = spec_process_incoming(mc, op)->Ok_0;
    match op {
        FriendTcOpView::RequestSendFunds(r) => {
            let pt = pt_of_request(r);
            lemma_sum_amounts_push(mc.remote_pending, pt);
            assert forall|i: int, j: int|
                0 <= i < j < after.remote_pending.len() implies (#[trigger] after.remote_pending[i]).request_id
                != (#[trigger] after.remote_pending[j]).request_id by {
                if j == after.remote_pending.len() - 1 {
                    assert(after.remote_pending[i] == mc.remote_pending[i]);
                    if mc.remote_pending[i].request_id == r.request_id {
                        assert(pt_contains(mc.remote_pending, r.request_id));
                    }
                }
            }
        },
        FriendTcOpView::ResponseSendFunds(r) => {
            let i = pt_index(mc.local_pending, r.request_id);
            let pt = pt_get(mc.local_pending, r.request_id);
            let npt = PendingTransactionView {
                stage: TransactionStageView::Response(r.dest_hashed_lock),
                ..pt
            };
            lemma_sum_amounts_update(mc.local_pending, i, npt);
            assert(after.local_pending == mc.local_pending.update(i, npt));
            assert forall|p: int, q: int|
                0 <= p < q < after.local_pending.len() implies (#[trigger] after.local_pending[p]).request_id
                != (#[trigger] after.local_pending[q]).request_id by {
                assert(after.local_pending[p].request_id == mc.local_pending[p].request_id);
                assert(after.local_pending[q].request_id == mc.local_pending[q].request_id);
            }
        },
        FriendTcOpView::CancelSendFunds(c) => {
            let i = pt_index(mc.local_pending, c.request_id);
            lemma_sum_amounts_remove(mc.local_pending, i);
            lemma_sum_amounts_nonneg(mc.local_pending.remove(i));
            assert forall|p: int, q: int|
                0 <= p < q < after.local_pending.len() implies (#[trigger] after.local_pending[p]).request_id
                != (#[trigger] after.local_pending[q]).request_id by {
                let s = mc.local_pending;
                let pp = if p < i { p } else { p + 1 };
                let qq = if q < i { q } else { q + 1 };
                assert(after.local_pending[p] == s[pp]);
                assert(after.local_pending[q] == s[qq]);
            }
        },
        FriendTcOpView::CollectSendFunds(c) => {
            let i = pt_index(mc.local_pending, c.request_id);
            lemma_sum_amounts_remove(mc.local_pending, i);
            lemma_sum_amounts_nonneg(mc.local_pending.remove(i));
            lemma_sum_amounts_element(mc.local_pending, i);
            assert forall|p: int, q: int|
                0 <= p < q < after.local_pending.len() implies (#[trigger] after.local_pending[p]).request_id
                != (#[trigger] after.local_pending[q]).request_id by {
                let s = mc.local_pending;
                let pp = if p < i { p } else { p + 1 };
                let qq = if q < i { q } else { q + 1 };
                assert(after.local_pending[p] == s[pp]);
                assert(after.local_pending[q] == s[qq]);
            }
        },
        _ => {},
    }
}

/// Decide whether a prospective reservation exceeds the granted trust:
/// whether `new_pending > b + max_debt`, computed without overflow.
fn new_debt_exceeds(b: i128, max_debt: u128, new_pending: u128) -> (r: bool)
    ensures
        r == (new_pending > b + max_debt),
{
    if b >= 0 {
        let bu = b as u128;
        if bu > u128::MAX - max_debt {
            false
        } else {
            new_pending > bu + max_debt
        }
    } else {
        let nb = (-(b + 1)) as u128 + 1;
        assert(nb == -(b as int));
        if max_debt < nb {
            true
        } else {
            new_pending > max_debt - nb
        }
    }
}

/// Process an incoming `EnableRequests`: the peer opens its gate.
pub fn process_enable_requests(mutual_credit: &mut MutualCredit) -> (r: Result<
    ProcessOperationOutput,
    ProcessOperationError,
>)
    requires
        old(mutual_credit)@.wf(),
    ensures
        match r {
            Ok(out) => {
                &&& spec_process_incoming(old(mutual_credit)@, FriendTcOpView::EnableRequests)
                    == Ok::<MutualCreditView, ProcessOperationError>(final(mutual_credit)@)
                &&& final(mutual_credit)@.wf()
                &&& spec_mc_mutate_all(old(mutual_credit)@, mc_muts_view(out.mc_mutations@))
                    == final(mutual_credit)@
                &&& out.incoming_message is None
            },
            Err(e) => {
                &&& final(mutual_credit)@ == old(mutual_credit)@
                &&& spec_process_incoming(old(mutual_credit)@, FriendTcOpView::EnableRequests)
                    == Err::<MutualCreditView, ProcessOperationError>(e)
            },
        },
{
    let ghost orig = mutual_credit@;
    if mutual_credit.state.requests_status.remote == RequestsStatus::Open {
        return Err(ProcessOperationError::RequestsAlreadyOpen);
    }
    let m = McMutation::SetRemoteRequestsStatus(RequestsStatus::Open);
    let ghost mv = m@;
    mutual_credit.mutate(&m);
    let mut mc_mutations: Vec<McMutation> = Vec::new();
    mc_mutations.push(m);
    proof {
        let ms = mc_muts_view(mc_mutations@);
        assert(ms.skip(1) =~= Seq::<McMutationView>::empty());
        assert(ms[0] == mv);
        let s1 = spec_mc_mutate(orig, mv);
        assert(spec_mc_mutate_all(orig, ms) == spec_mc_mutate_all(s1, ms.skip(1)));
        assert(spec_mc_mutate_all(s1, ms.skip(1)) == s1);
        assert(spec_mc_mutate_all(orig, ms) == mutual_credit@);
        lemma_process_incoming_preserves_wf(orig, FriendTcOpView::EnableRequests);
    }
    Ok(ProcessOperationOutput { incoming_message: None, mc_mutations })
}

/// Process an incoming `DisableRequests`: the peer closes its gate.
/// Closing an already closed gate is an error.
pub fn process_disable_requests(mutual_credit: &mut MutualCredit) -> (r: Result<
    ProcessOperationOutput,
    ProcessOperationError,
>)
    requires
        old(mutual_credit)@.wf(),
    ensures
        match r {
            Ok(out) => {
                &&& spec_process_incoming(old(mutual_credit)@, FriendTcOpView::DisableRequests)
                    == Ok::<MutualCreditView, ProcessOperationError>(final(mutual_credit)@)
                &&& final(mutual_credit)@.wf()
                &&& spec_mc_mutate_all(old(mutual_credit)@, mc_muts_view(out.mc_mutations@))
                    == final(mutual_credit)@
                &&& out.incoming_message is None
            },
            Err(e) => {
                &&& final(mutual_credit)@ == old(mutual_credit)@
                &&& spec_process_incoming(old(mutual_credit)@, FriendTcOpView::DisableRequests)
                    == Err::<MutualCreditView, ProcessOperationError>(e)
            },
        },
{
    let ghost orig = mutual_credit@;
    if mutual_credit.state.requests_status.remote == RequestsStatus::Closed {
        return Err(ProcessOperationError::RequestsAlreadyDisabled);
    }
    let m = McMutation::SetRemoteRequestsStatus(RequestsStatus::Closed);
    let ghost mv = m@;
    mutual_credit.mutate(&m);
    let mut mc_mutations: Vec<McMutation> = Vec::new();
    mc_mutations.push(m);
    proof {
        let ms = mc_muts_view(mc_mutations@);
        assert(ms.skip(1) =~= Seq::<McMutationView>::empty());
        assert(ms[0] == mv);
        let s1 = spec_mc_mutate(orig, mv);
        assert(spec_mc_mutate_all(orig, ms) == spec_mc_mutate_all(s1, ms.skip(1)));
        assert(spec_mc_mutate_all(s1, ms.skip(1)) == s1);
        assert(spec_mc_mutate_all(orig, ms) == mutual_credit@);
        lemma_process_incoming_preserves_wf(orig, FriendTcOpView::DisableRequests);
    }
    Ok(ProcessOperationOutput { incoming_message: None, mc_mutations })
}

/// Process an incoming `SetRemoteMaxDebt`: the peer adjusts the ceiling it
/// grants us; our `local_max_debt` follows it.
pub fn process_set_remote_max_debt(
    mutual_credit: &mut MutualCredit,
    proposed_max_debt: u128,
) -> (r: Result<ProcessOperationOutput, ProcessOperationError>)
    requires
        old(mutual_credit)@.wf(),
    ensures
        match r {
            Ok(out) => {
                &&& spec_process_incoming(
                    old(mutual_credit)@,
                    FriendTcOpView::SetRemoteMaxDebt(proposed_max_debt),
                ) == Ok::<MutualCreditView, ProcessOperationError>(final(mutual_credit)@)
                &&& final(mutual_credit)@.wf()
                &&& spec_mc_mutate_all(old(mutual_credit)@, mc_muts_view(out.mc_mutations@))
                    == final(mutual_credit)@
                &&& out.incoming_message is None
            },
            Err(e) => {
                &&& final(mutual_credit)@ == old(mutual_credit)@
                &&& spec_process_incoming(
                    old(mutual_credit)@,
                    FriendTcOpView::SetRemoteMaxDebt(proposed_max_debt),
                ) == Err::<MutualCreditView, ProcessOperationError>(e)
            },
        },
{
    let ghost orig = mutual_credit@;
    if proposed_max_debt > MAX_FUNDER_DEBT {
        return Err(ProcessOperationError::RemoteMaxDebtTooLarge(proposed_max_debt));
    }
    let m = McMutation::SetLocalMaxDebt(proposed_max_debt);
    let ghost mv = m@;
    mutual_credit.mutate(&m);
    let mut mc_mutations: Vec<McMutation> = Vec::new();
    mc_mutations.push(m);
    proof {
        let ms = mc_muts_view(mc_mutations@);
        assert(ms.skip(1) =~= Seq::<McMutationView>::empty());
        assert(ms[0] == mv);
        let s1 = spec_mc_mutate(orig, mv);
        assert(spec_mc_mutate_all(orig, ms) == spec_mc_mutate_all(s1, ms.skip(1)));
        assert(spec_mc_mutate_all(s1, ms.skip(1)) == s1);
        assert(spec_mc_mutate_all(orig, ms) == mutual_credit@);
        lemma_process_incoming_preserves_wf(
            orig,
            FriendTcOpView::SetRemoteMaxDebt(proposed_max_debt),
        );
    }
    Ok(ProcessOperationOutput { incoming_message: None, mc_mutations })
}

/// Process an incoming `RequestSendFunds`: reserve the request's credits
/// on the remote side and remember the pending transaction.
#[verifier::rlimit(60)]
pub fn process_request_send_funds(
    mutual_credit: &mut MutualCredit,
    request_send_funds: RequestSendFundsOp,
) -> (r: Result<ProcessOperationOutput, ProcessOperationError>)
    requires
        old(mutual_credit)@.wf(),
    ensures
        match r {
            Ok(out) => {
                &&& spec_process_incoming(
                    old(mutual_credit)@,
                    FriendTcOpView::RequestSendFunds(request_send_funds@),
                ) == Ok::<MutualCreditView, ProcessOperationError>(final(mutual_credit)@)
                &&& final(mutual_credit)@.wf()
                &&& spec_mc_mutate_all(old(mutual_credit)@, mc_muts_view(out.mc_mutations@))
                    == final(mutual_credit)@
                &&& out.incoming_message matches Some(IncomingMessage::Request(req))
                    && req@ == request_send_funds@
            },
            Err(e) => {
                &&& final(mutual_credit)@ == old(mutual_credit)@
                &&& spec_process_incoming(
                    old(mutual_credit)@,
                    FriendTcOpView::RequestSendFunds(request_send_funds@),
                ) == Err::<MutualCreditView, ProcessOperationError>(e)
            },
        },
{
    let ghost orig = mutual_credit@;
    let ghost rv = request_send_funds@;
    // Make sure that the route does not contain cycles or duplicates:
    if !request_send_funds.route.is_valid() {
        return Err(ProcessOperationError::InvalidRoute);
    }
    // Find the edge (remote, local) on the route. If it is absent, abort.
    let pair = request_send_funds.route.find_pk_pair(
        &mutual_credit.state.idents.remote_public_key,
        &mutual_credit.state.idents.local_public_key,
    );
    match pair {
        Some(i) => {
            proof {
                assert(rv.route[i as int] == orig.remote_public_key);
                assert(pair_in_route(rv.route, orig.remote_public_key, orig.local_public_key));
            }
        },
        None => {
            proof {
                assert(!pair_in_route(rv.route, orig.remote_public_key, orig.local_public_key))
                    by {
                    if pair_in_route(rv.route, orig.remote_public_key, orig.local_public_key) {
                        let i = choose|i: int|
                            0 <= i < rv.route.len() - 1 && (#[trigger] rv.route[i])
                                == orig.remote_public_key && rv.route[i + 1]
                                == orig.local_public_key;
                        assert(!(rv.route[i] == orig.remote_public_key && rv.route[i + 1]
                            == orig.local_public_key));
                    }
                }
            }
            return Err(ProcessOperationError::PkPairNotInRoute);
        },
    }
    // Make sure that we are open to requests:
    if !(mutual_credit.state.requests_status.local == RequestsStatus::Open) {
        return Err(ProcessOperationError::LocalRequestsClosed);
    }
    // The credits this request reserves:
    let dp = request_send_funds.dest_payment;
    let lf = request_send_funds.left_fees;
    if dp > u128::MAX - lf {
        return Err(ProcessOperationError::CreditsCalcOverflow);
    }
    let amount = dp + lf;
    // Make sure that we don't already have this request:
    match find_pt_index(
        &mutual_credit.state.pending_transactions.remote,
        &request_send_funds.request_id,
    ) {
        Some(i) => {
            proof {
                assert(orig.remote_pending[i as int].request_id == rv.request_id);
            }
            return Err(ProcessOperationError::RequestAlreadyExists);
        },
        None => {},
    }
    // Make sure we can freeze the credits:
    let rpd = mutual_credit.state.balance.remote_pending_debt;
    if rpd > u128::MAX - amount {
        return Err(ProcessOperationError::CreditsCalcOverflow);
    }
    let new_rpd = rpd + amount;
    let b = mutual_credit.state.balance.balance;
    let nb = -b;
    if new_debt_exceeds(nb, mutual_credit.state.balance.remote_max_debt, new_rpd) {
        return Err(ProcessOperationError::InsufficientTrust);
    }
    // If we are here, we can freeze the credits:
    let pending = create_pending_transaction(&request_send_funds);
    let m1 = McMutation::InsertRemotePendingTransaction(pending);
    let ghost m1v = m1@;
    mutual_credit.mutate(&m1);
    let m2 = McMutation::SetRemotePendingDebt(new_rpd);
    let ghost m2v = m2@;
    mutual_credit.mutate(&m2);
    let mut mc_mutations: Vec<McMutation> = Vec::new();
    mc_mutations.push(m1);
    mc_mutations.push(m2);
    proof {
        let ms = mc_muts_view(mc_mutations@);
        assert(ms.skip(1).skip(1) =~= Seq::<McMutationView>::empty());
        assert(ms[0] == m1v);
        assert(ms[1] == m2v);
        assert(ms.skip(1)[0] == ms[1]);
        let s1 = spec_mc_mutate(orig, m1v);
        let s2 = spec_mc_mutate(s1, m2v);
        assert(spec_mc_mutate_all(orig, ms) == spec_mc_mutate_all(s1, ms.skip(1)));
        assert(spec_mc_mutate_all(s1, ms.skip(1)) == spec_mc_mutate_all(s2, ms.skip(1).skip(1)));
        assert(spec_mc_mutate_all(s2, ms.skip(1).skip(1)) == s2);
        assert(spec_mc_mutate_all(orig, ms) == mutual_credit@);
        assert(spec_process_incoming(orig, FriendTcOpView::RequestSendFunds(rv))
            == Ok::<MutualCreditView, ProcessOperationError>(mutual_credit@)) by {
            assert(mutual_credit@ =~= MutualCreditView {
                remote_pending: orig.remote_pending.push(pt_of_request(rv)),
                remote_pending_debt: (orig.remote_pending_debt + rv.dest_payment
                    + rv.left_fees) as u128,
                ..orig
            });
        }
        lemma_process_incoming_preserves_wf(orig, FriendTcOpView::RequestSendFunds(rv));
    }
    Ok(ProcessOperationOutput {
        incoming_message: Some(IncomingMessage::Request(request_send_funds)),
        mc_mutations,
    })
}

/// Process an incoming `ResponseSendFunds`: after checking the
/// destination's signature, the matching local pending transaction
/// advances to its response stage.
pub fn process_response_send_funds(
    mutual_credit: &mut MutualCredit,
    response_send_funds: crate::messages::ResponseSendFundsOp,
) -> (r: Result<ProcessOperationOutput, ProcessOperationError>)
    requires
        old(mutual_credit)@.wf(),
    ensures
        match r {
            Ok(out) => {
                &&& spec_process_incoming(
                    old(mutual_credit)@,
                    FriendTcOpView::ResponseSendFunds(response_send_funds@),
                ) == Ok::<MutualCreditView, ProcessOperationError>(final(mutual_credit)@)
                &&& final(mutual_credit)@.wf()
                &&& spec_mc_mutate_all(old(mutual_credit)@, mc_muts_view(out.mc_mutations@))
                    == final(mutual_credit)@
                &&& out.incoming_message matches Some(IncomingMessage::Response(inc))
                    && inc.pending_transaction@ == pt_get(
                    old(mutual_credit)@.local_pending,
                    response_send_funds@.request_id,
                ) && inc.incoming_response@ == response_send_funds@
            },
            Err(e) => {
                &&& final(mutual_credit)@ == old(mutual_credit)@
                &&& spec_process_incoming(
                    old(mutual_credit)@,
                    FriendTcOpView::ResponseSendFunds(response_send_funds@),
                ) == Err::<MutualCreditView, ProcessOperationError>(e)
            },
        },
{
    let ghost orig = mutual_credit@;
    let ghost rv = response_send_funds@;
    let idx = match find_pt_index(
        &mutual_credit.state.pending_transactions.local,
        &response_send_funds.request_id,
    ) {
        None => {
            return Err(ProcessOperationError::RequestDoesNotExist);
        },
        Some(i) => i,
    };
    proof {
        lemma_pt_index_unique(orig.local_pending, rv.request_id, idx as int);
        assert(pt_get(orig.local_pending, rv.request_id) == orig.local_pending[idx as int]);
    }
    let pending = mutual_credit.state.pending_transactions.local[idx].clone();
    let stage_is_request = match &pending.stage {
        TransactionStage::Request => true,
        TransactionStage::Response(_) => false,
    };
    if !stage_is_request {
        return Err(ProcessOperationError::NotExpectingResponse);
    }
    let n = pending.route.public_keys.len();
    if n == 0 {
        return Err(ProcessOperationError::InvalidRoute);
    }
    let buffer = crate::signature_buff::create_response_signature_buffer(
        &response_send_funds,
        &pending,
    );
    let dest_pk = &pending.route.public_keys[n - 1];
    proof {
        assert(pending@.route[pending@.route.len() - 1] == pending.route.public_keys@[n - 1]@);
    }
    if !crate::crypto::verify_signature(&buffer, dest_pk, &response_send_funds.signature) {
        return Err(ProcessOperationError::InvalidResponseSignature);
    }
    let m1 = McMutation::SetLocalPendingTransactionStage(
        response_send_funds.request_id.clone(),
        TransactionStage::Response(response_send_funds.dest_hashed_lock.clone()),
    );
    let ghost m1v = m1@;
    mutual_credit.mutate(&m1);
    let mut mc_mutations: Vec<McMutation> = Vec::new();
    mc_mutations.push(m1);
    proof {
        let ms = mc_muts_view(mc_mutations@);
        assert(ms.skip(1) =~= Seq::<McMutationView>::empty());
        assert(ms[0] == m1v);
        let s1 = spec_mc_mutate(orig, m1v);
        assert(spec_mc_mutate_all(orig, ms) == spec_mc_mutate_all(s1, ms.skip(1)));
        assert(spec_mc_mutate_all(s1, ms.skip(1)) == s1);
        assert(spec_mc_mutate_all(orig, ms) == mutual_credit@);
        assert(spec_process_incoming(orig, FriendTcOpView::ResponseSendFunds(rv))
            == Ok::<MutualCreditView, ProcessOperationError>(mutual_credit@));
        lemma_process_incoming_preserves_wf(orig, FriendTcOpView::ResponseSendFunds(rv));
    }
    Ok(ProcessOperationOutput {
        incoming_message: Some(IncomingMessage::Response(IncomingResponseSendFunds {
            pending_transaction: pending,
            incoming_response: response_send_funds,
        })),
        mc_mutations,
    })
}

/// Process an incoming `CancelSendFunds`: drop the matching local pending
/// transaction and release its reservation.
pub fn process_cancel_send_funds(
    mutual_credit: &mut MutualCredit,
    cancel_send_funds: crate::messages::CancelSendFundsOp,
) -> (r: Result<ProcessOperationOutput, ProcessOperationError>)
    requires
        old(mutual_credit)@.wf(),
    ensures
        match r {
            Ok(out) => {
                &&& spec_process_incoming(
                    old(mutual_credit)@,
                    FriendTcOpView::CancelSendFunds(cancel_send_funds@),
                ) == Ok::<MutualCreditView, ProcessOperationError>(final(mutual_credit)@)
                &&& final(mutual_credit)@.wf()
                &&& spec_mc_mutate_all(old(mutual_credit)@, mc_muts_view(out.mc_mutations@))
                    == final(mutual_credit)@
                &&& out.incoming_message matches Some(IncomingMessage::Cancel(inc))
                    && inc.pending_transaction@ == pt_get(
                    old(mutual_credit)@.local_pending,
                    cancel_send_funds@.request_id,
                )
            },
            Err(e) => {
                &&& final(mutual_credit)@ == old(mutual_credit)@
                &&& spec_process_incoming(
                    old(mutual_credit)@,
                    FriendTcOpView::CancelSendFunds(cancel_send_funds@),
                ) == Err::<MutualCreditView, ProcessOperationError>(e)
            },
        },
{
    let ghost orig = mutual_credit@;
    let ghost cv = cancel_send_funds@;
    let idx = match find_pt_index(
        &mutual_credit.state.pending_transactions.local,
        &cancel_send_funds.request_id,
    ) {
        None => {
            return Err(ProcessOperationError::RequestDoesNotExist);
        },
        Some(i) => i,
    };
    proof {
        lemma_pt_index_unique(orig.local_pending, cv.request_id, idx as int);
        assert(pt_get(orig.local_pending, cv.request_id) == orig.local_pending[idx as int]);
        lemma_sum_amounts_element(orig.local_pending, idx as int);
    }
    let pending = mutual_credit.state.pending_transactions.local[idx].clone();
    let amount = pending.dest_payment + pending.left_fees;
    let new_lpd = mutual_credit.state.balance.local_pending_debt - amount;
    let m1 = McMutation::RemoveLocalPendingTransaction(cancel_send_funds.request_id.clone());
    let ghost m1v = m1@;
    mutual_credit.mutate(&m1);
    let m2 = McMutation::SetLocalPendingDebt(new_lpd);
    let ghost m2v = m2@;
    mutual_credit.mutate(&m2);
    let mut mc_mutations: Vec<McMutation> = Vec::new();
    mc_mutations.push(m1);
    mc_mutations.push(m2);
    proof {
        let ms = mc_muts_view(mc_mutations@);
        assert(ms.skip(1).skip(1) =~= Seq::<McMutationView>::empty());
        assert(ms[0] == m1v);
        assert(ms[1] == m2v);
        assert(ms.skip(1)[0] == ms[1]);
        let s1 = spec_mc_mutate(orig, m1v);
        let s2 = spec_mc_mutate(s1, m2v);
        assert(spec_mc_mutate_all(orig, ms) == spec_mc_mutate_all(s1, ms.skip(1)));
        assert(spec_mc_mutate_all(s1, ms.skip(1)) == spec_mc_mutate_all(s2, ms.skip(1).skip(1)));
        assert(spec_mc_mutate_all(s2, ms.skip(1).skip(1)) == s2);
        assert(spec_mc_mutate_all(orig, ms) == mutual_credit@);
        assert(spec_process_incoming(orig, FriendTcOpView::CancelSendFunds(cv))
            == Ok::<MutualCreditView, ProcessOperationError>(mutual_credit@));
        lemma_process_incoming_preserves_wf(orig, FriendTcOpView::CancelSendFunds(cv));
    }
    Ok(ProcessOperationOutput {
        incoming_message: Some(IncomingMessage::Cancel(IncomingCancelSendFunds {
            pending_transaction: pending,
        })),
        mc_mutations,
    })
}

/// Process an incoming `CollectSendFunds`: with both plain locks matching
/// their commitments, settle the matching responded transaction — release
/// the reservation and move the balance in the peer's favour.
#[verifier::rlimit(60)]
pub fn process_collect_send_funds(
    mutual_credit: &mut MutualCredit,
    collect_send_funds: crate::messages::CollectSendFundsOp,
) -> (r: Result<ProcessOperationOutput, ProcessOperationError>)
    requires
        old(mutual_credit)@.wf(),
    ensures
        match r {
            Ok(out) => {
                &&& spec_process_incoming(
                    old(mutual_credit)@,
                    FriendTcOpView::CollectSendFunds(collect_send_funds@),
                ) == Ok::<MutualCreditView, ProcessOperationError>(final(mutual_credit)@)
                &&& final(mutual_credit)@.wf()
                &&& spec_mc_mutate_all(old(mutual_credit)@, mc_muts_view(out.mc_mutations@))
                    == final(mutual_credit)@
                &&& out.incoming_message matches Some(IncomingMessage::Collect(inc))
                    && inc.pending_transaction@ == pt_get(
                    old(mutual_credit)@.local_pending,
                    collect_send_funds@.request_id,
                ) && inc.incoming_collect@ == collect_send_funds@
            },
            Err(e) => {
                &&& final(mutual_credit)@ == old(mutual_credit)@
                &&& spec_process_incoming(
                    old(mutual_credit)@,
                    FriendTcOpView::CollectSendFunds(collect_send_funds@),
                ) == Err::<MutualCreditView, ProcessOperationError>(e)
            },
        },
{
    let ghost orig = mutual_credit@;
    let ghost cv = collect_send_funds@;
    let idx = match find_pt_index(
        &mutual_credit.state.pending_transactions.local,
        &collect_send_funds.request_id,
    ) {
        None => {
            return Err(ProcessOperationError::RequestDoesNotExist);
        },
        Some(i) => i,
    };
    proof {
        lemma_pt_index_unique(orig.local_pending, cv.request_id, idx as int);
        assert(pt_get(orig.local_pending, cv.request_id) == orig.local_pending[idx as int]);
        lemma_sum_amounts_element(orig.local_pending, idx as int);
    }
    let pending = mutual_credit.state.pending_transactions.local[idx].clone();
    let dest_hashed_lock = match &pending.stage {
        TransactionStage::Request => {
            return Err(ProcessOperationError::NotExpectingCollect);
        },
        TransactionStage::Response(dhl) => dhl.clone(),
    };
    let computed_dest = collect_send_funds.dest_plain_lock.hash_lock();
    if !bytes_eq(&computed_dest.bytes, &dest_hashed_lock.bytes) {
        return Err(ProcessOperationError::InvalidDestPlainLock);
    }
    let computed_src = collect_send_funds.src_plain_lock.hash_lock();
    if !bytes_eq(&computed_src.bytes, &pending.src_hashed_lock.bytes) {
        return Err(ProcessOperationError::InvalidSrcPlainLock);
    }
    let amount = pending.dest_payment + pending.left_fees;
    let new_lpd = mutual_credit.state.balance.local_pending_debt - amount;
    let new_balance = sub_unsigned_i128(mutual_credit.state.balance.balance, amount);
    let m1 = McMutation::RemoveLocalPendingTransaction(collect_send_funds.request_id.clone());
    let ghost m1v = m1@;
    mutual_credit.mutate(&m1);
    let m2 = McMutation::SetLocalPendingDebt(new_lpd);
    let ghost m2v = m2@;
    mutual_credit.mutate(&m2);
    let m3 = McMutation::SetBalance(new_balance);
    let ghost m3v = m3@;
    mutual_credit.mutate(&m3);
    let mut mc_mutations: Vec<McMutation> = Vec::new();
    mc_mutations.push(m1);
    mc_mutations.push(m2);
    mc_mutations.push(m3);
    proof {
        let ms = mc_muts_view(mc_mutations@);
        assert(ms.skip(1).skip(1).skip(1) =~= Seq::<McMutationView>::empty());
        assert(ms[0] == m1v);
        assert(ms[1] == m2v);
        assert(ms[2] == m3v);
        assert(ms.skip(1)[0] == ms[1]);
        assert(ms.skip(1).skip(1)[0] == ms[2]);
        let s1 = spec_mc_mutate(orig, m1v);
        let s2 = spec_mc_mutate(s1, m2v);
        let s3 = spec_mc_mutate(s2, m3v);
        assert(spec_mc_mutate_all(orig, ms) == spec_mc_mutate_all(s1, ms.skip(1)));
        assert(spec_mc_mutate_all(s1, ms.skip(1)) == spec_mc_mutate_all(s2, ms.skip(1).skip(1)));
        assert(spec_mc_mutate_all(s2, ms.skip(1).skip(1)) == spec_mc_mutate_all(
            s3,
            ms.skip(1).skip(1).skip(1),
        ));
        assert(spec_mc_mutate_all(s3, ms.skip(1).skip(1).skip(1)) == s3);
        assert(spec_mc_mutate_all(orig, ms) == mutual_credit@);
        assert(spec_process_incoming(orig, FriendTcOpView::CollectSendFunds(cv))
            == Ok::<MutualCreditView, ProcessOperationError>(mutual_credit@));
        lemma_process_incoming_preserves_wf(orig, FriendTcOpView::CollectSendFunds(cv));
    }
    Ok(ProcessOperationOutput {
        incoming_message: Some(IncomingMessage::Collect(IncomingCollectSendFunds {
            pending_transaction: pending,
            incoming_collect: collect_send_funds,
        })),
        mc_mutations,
    })
}

/// Process one incoming operation sent by the peer.
pub fn process_operation(mutual_credit: &mut MutualCredit, friend_tc_op: FriendTcOp) -> (r: Result<
    ProcessOperationOutput,
    ProcessOperationError,
>)
    requires
        old(mutual_credit)@.wf(),
    ensures
        match r {
            Ok(out) => {
                &&& spec_process_incoming(old(mutual_credit)@, friend_tc_op@)
                    == Ok::<MutualCreditView, ProcessOperationError>(final(mutual_credit)@)
                &&& final(mutual_credit)@.wf()
                &&& spec_mc_mutate_all(old(mutual_credit)@, mc_muts_view(out.mc_mutations@))
                    == final(mutual_credit)@
            },
            Err(e) => {
                &&& final(mutual_credit)@ == old(mutual_credit)@
                &&& spec_process_incoming(old(mutual_credit)@, friend_tc_op@)
                    == Err::<MutualCreditView, ProcessOperationError>(e)
            },
        },
{
    match friend_tc_op {
        FriendTcOp::EnableRequests => process_enable_requests(mutual_credit),
        FriendTcOp::DisableRequests => process_disable_requests(mutual_credit),
        FriendTcOp::SetRemoteMaxDebt(proposed_max_debt) => process_set_remote_max_debt(
            mutual_credit,
            proposed_max_debt,
        ),
        FriendTcOp::RequestSendFunds(request_send_funds) => process_request_send_funds(
            mutual_credit,
            request_send_funds,
        ),
        FriendTcOp::ResponseSendFunds(response_send_funds) => process_response_send_funds(
            mutual_credit,
            response_send_funds,
        ),
        FriendTcOp::CancelSendFunds(cancel_send_funds) => process_cancel_send_funds(
            mutual_credit,
            cancel_send_funds,
        ),
        FriendTcOp::CollectSendFunds(collect_send_funds) => process_collect_send_funds(
            mutual_credit,
            collect_send_funds,
        ),
    }
}

/// Validate a whole incoming operation batch on a scratch copy of the
/// unit. The original is untouched; an error names the first operation
/// that failed, and then no part of the batch may be applied.
pub fn simulate_process_operations_list(
    mutual_credit: &MutualCredit,
    operations: Vec<FriendTcOp>,
) -> (r: Result<Vec<ProcessOperationOutput>, ProcessTransListError>)
    requires
        mutual_credit@.wf(),
    ensures
        match r {
            Ok(outputs) => {
                &&& outputs@.len() == operations@.len()
                &&& spec_process_ops(
                    mutual_credit@,
                    crate::messages::ops_view(operations@),
                ) is Ok
            },
            Err(e) => {
                &&& e.index < operations@.len()
                &&& spec_process_ops(mutual_credit@, crate::messages::ops_view(operations@))
                    == Err::<MutualCreditView, ProcessOperationError>(e.process_trans_error)
                &&& spec_process_ops(
                    mutual_credit@,
                    crate::messages::ops_view(operations@).take(e.index as int),
                ) matches Ok(s) && spec_process_incoming(
                    s,
                    crate::messages::ops_view(operations@)[e.index as int],
                ) == Err::<MutualCreditView, ProcessOperationError>(e.process_trans_error)
            },
        },
{
    let ghost opsv = crate::messages::ops_view(operations@);
    let mut outputs: Vec<ProcessOperationOutput> = Vec::new();
    // We do not change the original unit; we operate over a scratch copy.
    let mut cloned = mutual_credit.clone();
    let mut i: usize = 0;
    assert(opsv.skip(0) =~= opsv);
    assert(opsv.take(0) =~= Seq::<FriendTcOpView>::empty());
    while i < operations.len()
        invariant
            i <= operations.len(),
            opsv == crate::messages::ops_view(operations@),
            mutual_credit@.wf(),
            opsv.len() == operations@.len(),
            forall|j: int| 0 <= j < opsv.len() ==> opsv[j] == (#[trigger] operations@[j])@,
            cloned@.wf(),
            outputs@.len() == i,
            spec_process_ops(mutual_credit@, opsv) == spec_process_ops(
                cloned@,
                opsv.skip(i as int),
            ),
            spec_process_ops(mutual_credit@, opsv.take(i as int))
                == Ok::<MutualCreditView, ProcessOperationError>(cloned@),
        decreases operations.len() - i,
    {
        let op = operations[i].clone();
        let ghost pre = cloned@;
        proof {
            assert(opsv.skip(i as int)[0] == opsv[i as int]);
            assert(opsv.skip(i as int).skip(1) =~= opsv.skip(i + 1));
            lemma_spec_process_ops_take(mutual_credit@, opsv, i as int);
        }
        match process_operation(&mut cloned, op) {
            Err(e) => {
                proof {
                    assert(spec_process_incoming(pre, opsv[i as int])
                        == Err::<MutualCreditView, ProcessOperationError>(e));
                    assert(spec_process_ops(pre, opsv.skip(i as int))
                        == Err::<MutualCreditView, ProcessOperationError>(e));
                    assert(spec_process_ops(mutual_credit@, opsv)
                        == Err::<MutualCreditView, ProcessOperationError>(e));
                }
                return Err(ProcessTransListError { index: i, process_trans_error: e });
            },
            Ok(out) => {
                outputs.push(out);
                proof {
                    assert(spec_process_ops(pre, opsv.skip(i as int)) == spec_process_ops(
                        cloned@,
                        opsv.skip(i + 1),
                    ));
                }
            },
        }
        i = i + 1;
    }
    proof {
        assert(opsv.skip(operations@.len() as int) =~= Seq::<FriendTcOpView>::empty());
    }
    Ok(outputs)
}

// ---------------------------------------------------------------------------
// Queueing outgoing operations
// ---------------------------------------------------------------------------

/// What queueing an outgoing request does: it reserves
/// `dest_payment + left_fees` on the local side, within the trust the
/// peer granted us, provided the peer's gate is open.
pub open spec fn spec_queue_request(
    mc: MutualCreditView,
    r: RequestSendFundsOpView,
) -> Result<MutualCreditView, QueueOperationError> {
    if !route_valid(r.route) {
        Err(QueueOperationError::InvalidRoute)
    } else if !pair_in_route(r.route, mc.local_public_key, mc.remote_public_key) {
        Err(QueueOperationError::PkPairNotInRoute)
    } else if mc.remote_status != RequestsStatus::Open {
        Err(QueueOperationError::RemoteRequestsClosed)
    } else if r.dest_payment + r.left_fees > u128::MAX {
        Err(QueueOperationError::CreditsCalcOverflow)
    } else if pt_contains(mc.local_pending, r.request_id) {
        Err(QueueOperationError::RequestAlreadyExists)
    } else if mc.local_pending_debt + r.dest_payment + r.left_fees > u128::MAX {
        Err(QueueOperationError::CreditsCalcOverflow)
    } else if mc.local_pending_debt + r.dest_payment + r.left_fees > mc.balance
        + mc.local_max_debt {
        Err(QueueOperationError::InsufficientTrust)
    } else {
        Ok(MutualCreditView {
            local_pending: mc.local_pending.push(pt_of_request(r)),
            local_pending_debt: (mc.local_pending_debt + r.dest_payment + r.left_fees) as u128,
            ..mc
        })
    }
}

/// What queueing an outgoing response does: the peer's matching pending
/// transaction advances to its response stage.
pub open spec fn spec_queue_response(
    mc: MutualCreditView,
    r: crate::messages::ResponseSendFundsOpView,
) -> Result<MutualCreditView, QueueOperationError> {
    if !pt_contains(mc.remote_pending, r.request_id) {
        Err(QueueOperationError::RequestDoesNotExist)
    } else {
        let pt = pt_get(mc.remote_pending, r.request_id);
        if pt.stage != TransactionStageView::Request {
            Err(QueueOperationError::NotExpectingResponse)
        } else if pt.route.len() == 0 {
            Err(QueueOperationError::InvalidRoute)
        } else if !signature_valid(
            response_signature_buffer(r, pt),
            pt.route[pt.route.len() - 1],
            r.signature,
        ) {
            Err(QueueOperationError::InvalidResponseSignature)
        } else {
            Ok(MutualCreditView {
                remote_pending: pt_set_stage(
                    mc.remote_pending,
                    r.request_id,
                    TransactionStageView::Response(r.dest_hashed_lock),
                ),
                ..mc
            })
        }
    }
}

/// What queueing an outgoing cancel does: the peer's matching pending
/// transaction is dropped and its reservation released.
pub open spec fn spec_queue_cancel(
    mc: MutualCreditView,
    c: crate::messages::CancelSendFundsOpView,
) -> Result<MutualCreditView, QueueOperationError> {
    if !pt_contains(mc.remote_pending, c.request_id) {
        Err(QueueOperationError::RequestDoesNotExist)
    } else {
        let pt = pt_get(mc.remote_pending, c.request_id);
        Ok(MutualCreditView {
            remote_pending: pt_remove(mc.remote_pending, c.request_id),
            remote_pending_debt: (mc.remote_pending_debt - pt.amount()) as u128,
            ..mc
        })
    }
}

/// What queueing an outgoing collect does: the peer's responded
/// transaction is settled, moving the balance in our favour.
pub open spec fn spec_queue_collect(
    mc: MutualCreditView,
    c: crate::messages::CollectSendFundsOpView,
) -> Result<MutualCreditView, QueueOperationError> {
    if !pt_contains(mc.remote_pending, c.request_id) {
        Err(QueueOperationError::RequestDoesNotExist)
    } else {
        let pt = pt_get(mc.remote_pending, c.request_id);
        match pt.stage {
            TransactionStageView::Request => Err(QueueOperationError::NotExpectingCollect),
            TransactionStageView::Response(dest_hashed_lock) => {
                if hash_lock_of(c.dest_plain_lock) != dest_hashed_lock {
                    Err(QueueOperationError::InvalidDestPlainLock)
                } else if hash_lock_of(c.src_plain_lock) != pt.src_hashed_lock {
                    Err(QueueOperationError::InvalidSrcPlainLock)
                } else {
                    Ok(MutualCreditView {
                        remote_pending: pt_remove(mc.remote_pending, c.request_id),
                        remote_pending_debt: (mc.remote_pending_debt - pt.amount()) as u128,
                        balance: (mc.balance + pt.amount()) as i128,
                        ..mc
                    })
                }
            },
        }
    }
}

/// What one outgoing operation, about to be sent to the peer, does to a
/// unit.
pub open spec fn spec_queue_operation(
    mc: MutualCreditView,
    op: FriendTcOpView,
) -> Result<MutualCreditView, QueueOperationError> {
    match op {
        FriendTcOpView::EnableRequests => {
            if mc.local_status == RequestsStatus::Open {
                Err(QueueOperationError::RequestsAlreadyOpen)
            } else {
                Ok(MutualCreditView { local_status: RequestsStatus::Open, ..mc })
            }
        },
        FriendTcOpView::DisableRequests => {
            if mc.local_status == RequestsStatus::Closed {
                Err(QueueOperationError::RequestsAlreadyDisabled)
            } else {
                Ok(MutualCreditView { local_status: RequestsStatus::Closed, ..mc })
            }
        },
        FriendTcOpView::SetRemoteMaxDebt(x) => {
            if x > MAX_FUNDER_DEBT {
                Err(QueueOperationError::RemoteMaxDebtTooLarge(x))
            } else {
                Ok(MutualCreditView { remote_max_debt: x, ..mc })
            }
        },
        FriendTcOpView::RequestSendFunds(r) => spec_queue_request(mc, r),
        FriendTcOpView::ResponseSendFunds(r) => spec_queue_response(mc, r),
        FriendTcOpView::CancelSendFunds(c) => spec_queue_cancel(mc, c),
        FriendTcOpView::CollectSendFunds(c) => spec_queue_collect(mc, c),
    }
}

/// Every accepted outgoing operation keeps the unit well formed.
pub proof fn lemma_queue_operation_preserves_wf(mc: MutualCreditView, op: FriendTcOpView)
    requires
        mc.wf(),
        spec_queue_operation(mc, op) is Ok,
    ensures
        spec_queue_operation(mc, op)->Ok_0.wf(),
{
    let after = spec_queue_operation(mc, op)->Ok_0;
    match op {
        FriendTcOpView::RequestSendFunds(r) => {
            let pt = pt_of_request(r);
            lemma_sum_amounts_push(mc.local_pending, pt);
            assert forall|i: int, j: int|
                0 <= i < j < after.local_pending.len() implies (#[trigger] after.local_pending[i]).request_id
                != (#[trigger] after.local_pending[j]).request_id by {
                if j == after.local_pending.len() - 1 {
                    assert(after.local_pending[i] == mc.local_pending[i]);
                    if mc.local_pending[i].request_id == r.request_id {
                        assert(pt_contains(mc.local_pending, r.request_id));
                    }
                }
            }
        },
        FriendTcOpView::ResponseSendFunds(r) => {
            let i = pt_index(mc.remote_pending, r.request_id);
            let pt = pt_get(mc.remote_pending, r.request_id);
            let npt = PendingTransactionView {
                stage: TransactionStageView::Response(r.dest_hashed_lock),
                ..pt
            };
            lemma_sum_amounts_update(mc.remote_pending, i, npt);
            assert(after.remote_pending == mc.remote_pending.update(i, npt));
            assert forall|p: int, q: int|
                0 <= p < q < after.remote_pending.len() implies (#[trigger] after.remote_pending[p]).request_id
                != (#[trigger] after.remote_pending[q]).request_id by {
                assert(after.remote_pending[p].request_id == mc.remote_pending[p].request_id);
                assert(after.remote_pending[q].request_id == mc.remote_pending[q].request_id);
            }
        },
        FriendTcOpView::CancelSendFunds(c) => {
            let i = pt_index(mc.remote_pending, c.request_id);
            lemma_sum_amounts_remove(mc.remote_pending, i);
            lemma_sum_amounts_nonneg(mc.remote_pending.remove(i));
            assert forall|p: int, q: int|
                0 <= p < q < after.remote_pending.len() implies (#[trigger] after.remote_pending[p]).request_id
                != (#[trigger] after.remote_pending[q]).request_id by {
                let s = mc.remote_pending;
                let pp = if p < i { p } else { p + 1 };
                let qq = if q < i { q } else { q + 1 };
                assert(after.remote_pending[p] == s[pp]);
                assert(after.remote_pending[q] == s[qq]);
            }
        },
        FriendTcOpView::CollectSendFunds(c) => {
            let i = pt_index(mc.remote_pending, c.request_id);
            lemma_sum_amounts_remove(mc.remote_pending, i);
            lemma_sum_amounts_nonneg(mc.remote_pending.remove(i));
            lemma_sum_amounts_element(mc.remote_pending, i);
            assert forall|p: int, q: int|
                0 <= p < q < after.remote_pending.len() implies (#[trigger] after.remote_pending[p]).request_id
                != (#[trigger] after.remote_pending[q]).request_id by {
                let s = mc.remote_pending;
                let pp = if p < i { p } else { p + 1 };
                let qq = if q < i { q } else { q + 1 };
                assert(after.remote_pending[p] == s[pp]);
                assert(after.remote_pending[q] == s[qq]);
            }
        },
        _ => {},
    }
}

/// Law: after every accepted incoming operation other than a ceiling
/// change, a unit that respected its granted trust still does:
/// `-local_max_debt <= balance - local_pending_debt` and
/// `balance + remote_pending_debt <= remote_max_debt`.
/// (A `SetRemoteMaxDebt` may lower the ceiling below what is already
/// reserved; it is the one operation that can leave the bounds.)
pub proof fn lemma_process_incoming_keeps_debt_limits(mc: MutualCreditView, op: FriendTcOpView)
    requires
        mc.wf(),
        mc.within_debt_limits(),
        spec_process_incoming(mc, op) is Ok,
        !(op matches FriendTcOpView::SetRemoteMaxDebt(_)),
    ensures
        spec_process_incoming(mc, op)->Ok_0.within_debt_limits(),
{
    match op {
        FriendTcOpView::CancelSendFunds(c) => {
            lemma_sum_amounts_element(
                mc.local_pending,
                pt_index(mc.local_pending, c.request_id),
            );
        },
        FriendTcOpView::CollectSendFunds(c) => {
            lemma_sum_amounts_element(
                mc.local_pending,
                pt_index(mc.local_pending, c.request_id),
            );
        },
        _ => {},
    }
}

/// Law: the same, for every accepted outgoing operation other than a
/// ceiling change.
pub proof fn lemma_queue_operation_keeps_debt_limits(mc: MutualCreditView, op: FriendTcOpView)
    requires
        mc.wf(),
        mc.within_debt_limits(),
        spec_queue_operation(mc, op) is Ok,
        !(op matches FriendTcOpView::SetRemoteMaxDebt(_)),
    ensures
        spec_queue_operation(mc, op)->Ok_0.within_debt_limits(),
{
    match op {
        FriendTcOpView::CancelSendFunds(c) => {
            lemma_sum_amounts_element(
                mc.remote_pending,
                pt_index(mc.remote_pending, c.request_id),
            );
        },
        FriendTcOpView::CollectSendFunds(c) => {
            lemma_sum_amounts_element(
                mc.remote_pending,
                pt_index(mc.remote_pending, c.request_id),
            );
        },
        _ => {},
    }
}

/// Two units are each other's mirror image: each side's view of the
/// balance is the exact negation of the other's, ceilings, reservations,
/// pending transactions and gates swap sides.
pub open spec fn mc_dual(a: MutualCreditView, b: MutualCreditView) -> bool {
    &&& a.local_public_key == b.remote_public_key
    &&& a.remote_public_key == b.local_public_key
    &&& a.balance + b.balance == 0
    &&& a.local_max_debt == b.remote_max_debt
    &&& a.remote_max_debt == b.local_max_debt
    &&& a.local_pending_debt == b.remote_pending_debt
    &&& a.remote_pending_debt == b.local_pending_debt
    &&& a.local_pending == b.remote_pending
    &&& a.remote_pending == b.local_pending
    &&& a.local_status == b.remote_status
    &&& a.remote_status == b.local_status
}

/// Law: after a successful exchange of any operation — one side queues it
/// as outgoing, the other accepts it as incoming — two mirror-image units
/// stay mirror images. In particular their balances remain exact
/// negations of one another.
pub proof fn lemma_mc_dual_preserved(a: MutualCreditView, b: MutualCreditView, op: FriendTcOpView)
    requires
        a.wf(),
        b.wf(),
        mc_dual(a, b),
        spec_queue_operation(a, op) is Ok,
        spec_process_incoming(b, op) is Ok,
    ensures
        mc_dual(spec_queue_operation(a, op)->Ok_0, spec_process_incoming(b, op)->Ok_0),
{
    match op {
        FriendTcOpView::RequestSendFunds(r) => {
            assert(a.local_pending.push(pt_of_request(r)) == b.remote_pending.push(
                pt_of_request(r),
            ));
        },
        FriendTcOpView::ResponseSendFunds(r) => {
            assert(a.remote_pending == b.local_pending);
            assert(pt_set_stage(
                a.remote_pending,
                r.request_id,
                TransactionStageView::Response(r.dest_hashed_lock),
            ) == pt_set_stage(
                b.local_pending,
                r.request_id,
                TransactionStageView::Response(r.dest_hashed_lock),
            ));
        },
        FriendTcOpView::CancelSendFunds(c) => {
            assert(a.remote_pending == b.local_pending);
            lemma_sum_amounts_element(
                a.remote_pending,
                pt_index(a.remote_pending, c.request_id),
            );
        },
        FriendTcOpView::CollectSendFunds(c) => {
            assert(a.remote_pending == b.local_pending);
            let i = pt_index(a.remote_pending, c.request_id);
            lemma_sum_amounts_element(a.remote_pending, i);
            let amt = pt_get(a.remote_pending, c.request_id).amount();
            assert(a.balance + amt <= MAX_FUNDER_DEBT as int);
            assert(b.balance - amt >= -(MAX_FUNDER_DEBT as int));
        },
        _ => {},
    }
}

/// A scratch unit that validates and applies outgoing operations before
/// they are sealed into a `MoveToken`. On failure the scratch copy is
/// discarded and the real unit is untouched.
#[derive(Debug)]
pub struct OutgoingMc {
    pub mutual_credit: MutualCredit,
}

impl OutgoingMc {
    /// Start from a snapshot of the given unit.
    pub fn new(mutual_credit: &MutualCredit) -> (r: OutgoingMc)
        ensures
            r.mutual_credit@ == mutual_credit@,
    {
        OutgoingMc { mutual_credit: mutual_credit.clone() }
    }

    /// Validate and apply one outgoing operation, returning the mutations
    /// it causes so that the caller can apply them to the real unit.
    #[verifier::rlimit(60)]
    pub fn queue_operation(&mut self, operation: &FriendTcOp) -> (r: Result<
        Vec<McMutation>,
        QueueOperationError,
    >)
        requires
            old(self).mutual_credit@.wf(),
        ensures
            match r {
                Ok(muts) => {
                    &&& spec_queue_operation(old(self).mutual_credit@, operation@)
                        == Ok::<MutualCreditView, QueueOperationError>(final(self).mutual_credit@)
                    &&& final(self).mutual_credit@.wf()
                    &&& spec_mc_mutate_all(old(self).mutual_credit@, mc_muts_view(muts@))
                        == final(self).mutual_credit@
                },
                Err(e) => {
                    &&& final(self).mutual_credit@ == old(self).mutual_credit@
                    &&& spec_queue_operation(old(self).mutual_credit@, operation@)
                        == Err::<MutualCreditView, QueueOperationError>(e)
                },
            },
    {
        let ghost orig = self.mutual_credit@;
        let ghost opv = operation@;
        match operation {
            FriendTcOp::EnableRequests => {
                if self.mutual_credit.state.requests_status.local == RequestsStatus::Open {
                    return Err(QueueOperationError::RequestsAlreadyOpen);
                }
                let m = McMutation::SetLocalRequestsStatus(RequestsStatus::Open);
                let ghost mv = m@;
                self.mutual_credit.mutate(&m);
                let mut mc_mutations: Vec<McMutation> = Vec::new();
                mc_mutations.push(m);
                proof {
                    let ms = mc_muts_view(mc_mutations@);
                    assert(ms.skip(1) =~= Seq::<McMutationView>::empty());
                    assert(ms[0] == mv);
                    let s1 = spec_mc_mutate(orig, mv);
                    assert(spec_mc_mutate_all(orig, ms) == spec_mc_mutate_all(s1, ms.skip(1)));
                    assert(spec_mc_mutate_all(s1, ms.skip(1)) == s1);
                    lemma_queue_operation_preserves_wf(orig, opv);
                }
                Ok(mc_mutations)
            },
            FriendTcOp::DisableRequests => {
                if self.mutual_credit.state.requests_status.local == RequestsStatus::Closed {
                    return Err(QueueOperationError::RequestsAlreadyDisabled);
                }
                let m = McMutation::SetLocalRequestsStatus(RequestsStatus::Closed);
                let ghost mv = m@;
                self.mutual_credit.mutate(&m);
                let mut mc_mutations: Vec<McMutation> = Vec::new();
                mc_mutations.push(m);
                proof {
                    let ms = mc_muts_view(mc_mutations@);
                    assert(ms.skip(1) =~= Seq::<McMutationView>::empty());
                    assert(ms[0] == mv);
                    let s1 = spec_mc_mutate(orig, mv);
                    assert(spec_mc_mutate_all(orig, ms) == spec_mc_mutate_all(s1, ms.skip(1)));
                    assert(spec_mc_mutate_all(s1, ms.skip(1)) == s1);
                    lemma_queue_operation_preserves_wf(orig, opv);
                }
                Ok(mc_mutations)
            },
            FriendTcOp::SetRemoteMaxDebt(proposed_max_debt) => {
                if *proposed_max_debt > MAX_FUNDER_DEBT {
                    return Err(QueueOperationError::RemoteMaxDebtTooLarge(*proposed_max_debt));
                }
                let m = McMutation::SetRemoteMaxDebt(*proposed_max_debt);
                let ghost mv = m@;
                self.mutual_credit.mutate(&m);
                let mut mc_mutations: Vec<McMutation> = Vec::new();
                mc_mutations.push(m);
                proof {
                    let ms = mc_muts_view(mc_mutations@);
                    assert(ms.skip(1) =~= Seq::<McMutationView>::empty());
                    assert(ms[0] == mv);
                    let s1 = spec_mc_mutate(orig, mv);
                    assert(spec_mc_mutate_all(orig, ms) == spec_mc_mutate_all(s1, ms.skip(1)));
                    assert(spec_mc_mutate_all(s1, ms.skip(1)) == s1);
                    lemma_queue_operation_preserves_wf(orig, opv);
                }
                Ok(mc_mutations)
            },
            FriendTcOp::RequestSendFunds(request_send_funds) => self.queue_request_send_funds(
                request_send_funds,
            ),
            FriendTcOp::ResponseSendFunds(response_send_funds) => self.queue_response_send_funds(
                response_send_funds,
            ),
            FriendTcOp::CancelSendFunds(cancel_send_funds) => self.queue_cancel_send_funds(
                cancel_send_funds,
            ),
            FriendTcOp::CollectSendFunds(collect_send_funds) => self.queue_collect_send_funds(
                collect_send_funds,
            ),
        }
    }

    /// Queue an outgoing request: reserve its credits on the local side.
    #[verifier::rlimit(60)]
    fn queue_request_send_funds(&mut self, request_send_funds: &RequestSendFundsOp) -> (r: Result<
        Vec<McMutation>,
        QueueOperationError,
    >)
        requires
            old(self).mutual_credit@.wf(),
        ensures
            match r {
                Ok(muts) => {
                    &&& spec_queue_request(old(self).mutual_credit@, request_send_funds@)
                        == Ok::<MutualCreditView, QueueOperationError>(final(self).mutual_credit@)
                    &&& final(self).mutual_credit@.wf()
                    &&& spec_mc_mutate_all(old(self).mutual_credit@, mc_muts_view(muts@))
                        == final(self).mutual_credit@
                },
                Err(e) => {
                    &&& final(self).mutual_credit@ == old(self).mutual_credit@
                    &&& spec_queue_request(old(self).mutual_credit@, request_send_funds@)
                        == Err::<MutualCreditView, QueueOperationError>(e)
                },
            },
    {
        let ghost orig = self.mutual_credit@;
        let ghost rv = request_send_funds@;
        if !request_send_funds.route.is_valid() {
            return Err(QueueOperationError::InvalidRoute);
        }
        let pair = request_send_funds.route.find_pk_pair(
            &self.mutual_credit.state.idents.local_public_key,
            &self.mutual_credit.state.idents.remote_public_key,
        );
        match pair {
            Some(i) => {
                proof {
                    assert(rv.route[i as int] == orig.local_public_key);
                    assert(pair_in_route(rv.route, orig.local_public_key, orig.remote_public_key));
                }
            },
            None => {
                proof {
                    assert(!pair_in_route(rv.route, orig.local_public_key, orig.remote_public_key))
                        by {
                        if pair_in_route(rv.route, orig.local_public_key, orig.remote_public_key) {
                            let i = choose|i: int|
                                0 <= i < rv.route.len() - 1 && (#[trigger] rv.route[i])
                                    == orig.local_public_key && rv.route[i + 1]
                                    == orig.remote_public_key;
                            assert(!(rv.route[i] == orig.local_public_key && rv.route[i + 1]
                                == orig.remote_public_key));
                        }
                    }
                }
                return Err(QueueOperationError::PkPairNotInRoute);
            },
        }
        if !(self.mutual_credit.state.requests_status.remote == RequestsStatus::Open) {
            return Err(QueueOperationError::RemoteRequestsClosed);
        }
        let dp = request_send_funds.dest_payment;
        let lf = request_send_funds.left_fees;
        if dp > u128::MAX - lf {
            return Err(QueueOperationError::CreditsCalcOverflow);
        }
        let amount = dp + lf;
        match find_pt_index(
            &self.mutual_credit.state.pending_transactions.local,
            &request_send_funds.request_id,
        ) {
            Some(i) => {
                proof {
                    assert(orig.local_pending[i as int].request_id == rv.request_id);
                }
                return Err(QueueOperationError::RequestAlreadyExists);
            },
            None => {},
        }
        let lpd = self.mutual_credit.state.balance.local_pending_debt;
        if lpd > u128::MAX - amount {
            return Err(QueueOperationError::CreditsCalcOverflow);
        }
        let new_lpd = lpd + amount;
        let b = self.mutual_credit.state.balance.balance;
        if new_debt_exceeds(b, self.mutual_credit.state.balance.local_max_debt, new_lpd) {
            return Err(QueueOperationError::InsufficientTrust);
        }
        let pending = create_pending_transaction(request_send_funds);
        let m1 = McMutation::InsertLocalPendingTransaction(pending);
        let ghost m1v = m1@;
        self.mutual_credit.mutate(&m1);
        let m2 = McMutation::SetLocalPendingDebt(new_lpd);
        let ghost m2v = m2@;
        self.mutual_credit.mutate(&m2);
        let mut mc_mutations: Vec<McMutation> = Vec::new();
        mc_mutations.push(m1);
        mc_mutations.push(m2);
        proof {
            let ms = mc_muts_view(mc_mutations@);
            assert(ms.skip(1).skip(1) =~= Seq::<McMutationView>::empty());
            assert(ms[0] == m1v);
            assert(ms[1] == m2v);
            assert(ms.skip(1)[0] == ms[1]);
            let s1 = spec_mc_mutate(orig, m1v);
            let s2 = spec_mc_mutate(s1, m2v);
            assert(spec_mc_mutate_all(orig, ms) == spec_mc_mutate_all(s1, ms.skip(1)));
            assert(spec_mc_mutate_all(s1, ms.skip(1)) == spec_mc_mutate_all(
                s2,
                ms.skip(1).skip(1),
            ));
            assert(spec_mc_mutate_all(s2, ms.skip(1).skip(1)) == s2);
            assert(spec_queue_request(orig, rv) == Ok::<MutualCreditView, QueueOperationError>(
                self.mutual_credit@,
            )) by {
                assert(self.mutual_credit@ =~= MutualCreditView {
                    local_pending: orig.local_pending.push(pt_of_request(rv)),
                    local_pending_debt: (orig.local_pending_debt + rv.dest_payment
                        + rv.left_fees) as u128,
                    ..orig
                });
            }
            lemma_queue_operation_preserves_wf(orig, FriendTcOpView::RequestSendFunds(rv));
        }
        Ok(mc_mutations)
    }

    /// Queue an outgoing response: advance the peer's pending transaction
    /// to its response stage after checking the destination's signature.
    fn queue_response_send_funds(
        &mut self,
        response_send_funds: &crate::messages::ResponseSendFundsOp,
    ) -> (r: Result<Vec<McMutation>, QueueOperationError>)
        requires
            old(self).mutual_credit@.wf(),
        ensures
            match r {
                Ok(muts) => {
                    &&& spec_queue_response(old(self).mutual_credit@, response_send_funds@)
                        == Ok::<MutualCreditView, QueueOperationError>(final(self).mutual_credit@)
                    &&& final(self).mutual_credit@.wf()
                    &&& spec_mc_mutate_all(old(self).mutual_credit@, mc_muts_view(muts@))
                        == final(self).mutual_credit@
                },
                Err(e) => {
                    &&& final(self).mutual_credit@ == old(self).mutual_credit@
                    &&& spec_queue_response(old(self).mutual_credit@, response_send_funds@)
                        == Err::<MutualCreditView, QueueOperationError>(e)
                },
            },
    {
        let ghost orig = self.mutual_credit@;
        let ghost rv = response_send_funds@;
        let idx = match find_pt_index(
            &self.mutual_credit.state.pending_transactions.remote,
            &response_send_funds.request_id,
        ) {
            None => {
                return Err(QueueOperationError::RequestDoesNotExist);
            },
            Some(i) => i,
        };
        proof {
            lemma_pt_index_unique(orig.remote_pending, rv.request_id, idx as int);
            assert(pt_get(orig.remote_pending, rv.request_id) == orig.remote_pending[idx as int]);
        }
        let pending = self.mutual_credit.state.pending_transactions.remote[idx].clone();
        let stage_is_request = match &pending.stage {
            TransactionStage::Request => true,
            TransactionStage::Response(_) => false,
        };
        if !stage_is_request {
            return Err(QueueOperationError::NotExpectingResponse);
        }
        let n = pending.route.public_keys.len();
        if n == 0 {
            return Err(QueueOperationError::InvalidRoute);
        }
        let buffer = crate::signature_buff::create_response_signature_buffer(
            response_send_funds,
            &pending,
        );
        let dest_pk = &pending.route.public_keys[n - 1];
        proof {
            assert(pending@.route[pending@.route.len() - 1] == pending.route.public_keys@[n - 1]@);
        }
        if !crate::crypto::verify_signature(&buffer, dest_pk, &response_send_funds.signature) {
            return Err(QueueOperationError::InvalidResponseSignature);
        }
        let m1 = McMutation::SetRemotePendingTransactionStage(
            response_send_funds.request_id.clone(),
            TransactionStage::Response(response_send_funds.dest_hashed_lock.clone()),
        );
        let ghost m1v = m1@;
        self.mutual_credit.mutate(&m1);
        let mut mc_mutations: Vec<McMutation> = Vec::new();
        mc_mutations.push(m1);
        proof {
            let ms = mc_muts_view(mc_mutations@);
            assert(ms.skip(1) =~= Seq::<McMutationView>::empty());
            assert(ms[0] == m1v);
            let s1 = spec_mc_mutate(orig, m1v);
            assert(spec_mc_mutate_all(orig, ms) == spec_mc_mutate_all(s1, ms.skip(1)));
            assert(spec_mc_mutate_all(s1, ms.skip(1)) == s1);
            assert(spec_queue_response(orig, rv) == Ok::<MutualCreditView, QueueOperationError>(
                self.mutual_credit@,
            ));
            lemma_queue_operation_preserves_wf(orig, FriendTcOpView::ResponseSendFunds(rv));
        }
        Ok(mc_mutations)
    }

    /// Queue an outgoing cancel: drop the peer's pending transaction and
    /// release its reservation.
    fn queue_cancel_send_funds(
        &mut self,
        cancel_send_funds: &crate::messages::CancelSendFundsOp,
    ) -> (r: Result<Vec<McMutation>, QueueOperationError>)
        requires
            old(self).mutual_credit@.wf(),
        ensures
            match r {
                Ok(muts) => {
                    &&& spec_queue_cancel(old(self).mutual_credit@, cancel_send_funds@)
                        == Ok::<MutualCreditView, QueueOperationError>(final(self).mutual_credit@)
                    &&& final(self).mutual_credit@.wf()
                    &&& spec_mc_mutate_all(old(self).mutual_credit@, mc_muts_view(muts@))
                        == final(self).mutual_credit@
                },
                Err(e) => {
                    &&& final(self).mutual_credit@ == old(self).mutual_credit@
                    &&& spec_queue_cancel(old(self).mutual_credit@, cancel_send_funds@)
                        == Err::<MutualCreditView, QueueOperationError>(e)
                },
            },
    {
        let ghost orig = self.mutual_credit@;
        let ghost cv = cancel_send_funds@;
        let idx = match find_pt_index(
            &self.mutual_credit.state.pending_transactions.remote,
            &cancel_send_funds.request_id,
        ) {
            None => {
                return Err(QueueOperationError::RequestDoesNotExist);
            },
            Some(i) => i,
        };
        proof {
            lemma_pt_index_unique(orig.remote_pending, cv.request_id, idx as int);
            assert(pt_get(orig.remote_pending, cv.request_id) == orig.remote_pending[idx as int]);
            lemma_sum_amounts_element(orig.remote_pending, idx as int);
        }
        let pending = self.mutual_credit.state.pending_transactions.remote[idx].clone();
        let amount = pending.dest_payment + pending.left_fees;
        let new_rpd = self.mutual_credit.state.balance.remote_pending_debt - amount;
        let m1 = McMutation::RemoveRemotePendingTransaction(cancel_send_funds.request_id.clone());
        let ghost m1v = m1@;
        self.mutual_credit.mutate(&m1);
        let m2 = McMutation::SetRemotePendingDebt(new_rpd);
        let ghost m2v = m2@;
        self.mutual_credit.mutate(&m2);
        let mut mc_mutations: Vec<McMutation> = Vec::new();
        mc_mutations.push(m1);
        mc_mutations.push(m2);
        proof {
            let ms = mc_muts_view(mc_mutations@);
            assert(ms.skip(1).skip(1) =~= Seq::<McMutationView>::empty());
            assert(ms[0] == m1v);
            assert(ms[1] == m2v);
            assert(ms.skip(1)[0] == ms[1]);
            let s1 = spec_mc_mutate(orig, m1v);
            let s2 = spec_mc_mutate(s1, m2v);
            assert(spec_mc_mutate_all(orig, ms) == spec_mc_mutate_all(s1, ms.skip(1)));
            assert(spec_mc_mutate_all(s1, ms.skip(1)) == spec_mc_mutate_all(
                s2,
                ms.skip(1).skip(1),
            ));
            assert(spec_mc_mutate_all(s2, ms.skip(1).skip(1)) == s2);
            assert(spec_queue_cancel(orig, cv) == Ok::<MutualCreditView, QueueOperationError>(
                self.mutual_credit@,
            ));
            lemma_queue_operation_preserves_wf(orig, FriendTcOpView::CancelSendFunds(cv));
        }
        Ok(mc_mutations)
    }

    /// Queue an outgoing collect: settle the peer's responded transaction,
    /// moving the balance in our favour.
    #[verifier::rlimit(60)]
    fn queue_collect_send_funds(
        &mut self,
        collect_send_funds: &crate::messages::CollectSendFundsOp,
    ) -> (r: Result<Vec<McMutation>, QueueOperationError>)
        requires
            old(self).mutual_credit@.wf(),
        ensures
            match r {
                Ok(muts) => {
                    &&& spec_queue_collect(old(self).mutual_credit@, collect_send_funds@)
                        == Ok::<MutualCreditView, QueueOperationError>(final(self).mutual_credit@)
                    &&& final(self).mutual_credit@.wf()
                    &&& spec_mc_mutate_all(old(self).mutual_credit@, mc_muts_view(muts@))
                        == final(self).mutual_credit@
                },
                Err(e) => {
                    &&& final(self).mutual_credit@ == old(self).mutual_credit@
                    &&& spec_queue_collect(old(self).mutual_credit@, collect_send_funds@)
                        == Err::<MutualCreditView, QueueOperationError>(e)
                },
            },
    {
        let ghost orig = self.mutual_credit@;
        let ghost cv = collect_send_funds@;
        let idx = match find_pt_index(
            &self.mutual_credit.state.pending_transactions.remote,
            &collect_send_funds.request_id,
        ) {
            None => {
                return Err(QueueOperationError::RequestDoesNotExist);
            },
            Some(i) => i,
        };
        proof {
            lemma_pt_index_unique(orig.remote_pending, cv.request_id, idx as int);
            assert(pt_get(orig.remote_pending, cv.request_id) == orig.remote_pending[idx as int]);
            lemma_sum_amounts_element(orig.remote_pending, idx as int);
        }
        let pending = self.mutual_credit.state.pending_transactions.remote[idx].clone();
        let dest_hashed_lock = match &pending.stage {
            TransactionStage::Request => {
                return Err(QueueOperationError::NotExpectingCollect);
            },
            TransactionStage::Response(dhl) => dhl.clone(),
        };
        let computed_dest = collect_send_funds.dest_plain_lock.hash_lock();
        if !bytes_eq(&computed_dest.bytes, &dest_hashed_lock.bytes) {
            return Err(QueueOperationError::InvalidDestPlainLock);
        }
        let computed_src = collect_send_funds.src_plain_lock.hash_lock();
        if !bytes_eq(&computed_src.bytes, &pending.src_hashed_lock.bytes) {
            return Err(QueueOperationError::InvalidSrcPlainLock);
        }
        let amount = pending.dest_payment + pending.left_fees;
        let new_rpd = self.mutual_credit.state.balance.remote_pending_debt - amount;
        let new_balance = add_unsigned_i128(self.mutual_credit.state.balance.balance, amount);
        let m1 = McMutation::RemoveRemotePendingTransaction(collect_send_funds.request_id.clone());
        let ghost m1v = m1@;
        self.mutual_credit.mutate(&m1);
        let m2 = McMutation::SetRemotePendingDebt(new_rpd);
        let ghost m2v = m2@;
        self.mutual_credit.mutate(&m2);
        let m3 = McMutation::SetBalance(new_balance);
        let ghost m3v = m3@;
        self.mutual_credit.mutate(&m3);
        let mut mc_mutations: Vec<McMutation> = Vec::new();
        mc_mutations.push(m1);
        mc_mutations.push(m2);
        mc_mutations.push(m3);
        proof {
            let ms = mc_muts_view(mc_mutations@);
            assert(ms.skip(1).skip(1).skip(1) =~= Seq::<McMutationView>::empty());
            assert(ms[0] == m1v);
            assert(ms[1] == m2v);
            assert(ms[2] == m3v);
            assert(ms.skip(1)[0] == ms[1]);
            assert(ms.skip(1).skip(1)[0] == ms[2]);
            let s1 = spec_mc_mutate(orig, m1v);
            let s2 = spec_mc_mutate(s1, m2v);
            let s3 = spec_mc_mutate(s2, m3v);
            assert(spec_mc_mutate_all(orig, ms) == spec_mc_mutate_all(s1, ms.skip(1)));
            assert(spec_mc_mutate_all(s1, ms.skip(1)) == spec_mc_mutate_all(
                s2,
                ms.skip(1).skip(1),
            ));
            assert(spec_mc_mutate_all(s2, ms.skip(1).skip(1)) == spec_mc_mutate_all(
                s3,
                ms.skip(1).skip(1).skip(1),
            ));
            assert(spec_mc_mutate_all(s3, ms.skip(1).skip(1).skip(1)) == s3);
            assert(spec_queue_collect(orig, cv) == Ok::<MutualCreditView, QueueOperationError>(
                self.mutual_credit@,
            ));
            lemma_queue_operation_preserves_wf(orig, FriendTcOpView::CollectSendFunds(cv));
        }
        Ok(mc_mutations)
    }
}

} // verus!
