//! The funder's message and operation types, together with route validity
//! and the forwarding-fee rate arithmetic.

use vstd::prelude::*;

use crate::MAX_ROUTE_LEN;
use crate::crypto::{
    Currency, HashResult, HashedLock, InvoiceId, NetAddress, PaymentId, PlainLock, PublicKey,
    RandValue, Signature, Uid, bytes_eq,
};

verus! {

/// The spec-level image of a sequence of public keys: each key as its bytes.
pub open spec fn pks_view(s: Seq<PublicKey>) -> Seq<Seq<u8>> {
    s.map_values(|pk: PublicKey| pk@)
}

/// Copy a vector of public keys.
pub fn clone_public_keys(v: &Vec<PublicKey>) -> (r: Vec<PublicKey>)
    ensures
        pks_view(r@) == pks_view(v@),
        r@.len() == v@.len(),
        forall|i: int| 0 <= i < v@.len() ==> r@[i]@ == v@[i]@,
{
    let mut out: Vec<PublicKey> = Vec::new();
    let mut i: usize = 0;
    while i < v.len()
        invariant
            i <= v.len(),
            out@.len() == i,
            forall|j: int| 0 <= j < i ==> out@[j]@ == v@[j]@,
        decreases v.len() - i,
    {
        out.push(v[i].clone());
        i = i + 1;
    }
    assert(pks_view(out@) =~= pks_view(v@));
    out
}

/// A route of public keys from a payment's source to its destination.
#[derive(Debug)]
pub struct FriendsRoute {
    pub public_keys: Vec<PublicKey>,
}

impl View for FriendsRoute {
    type V = Seq<Seq<u8>>;

    open spec fn view(&self) -> Seq<Seq<u8>> {
        pks_view(self.public_keys@)
    }
}

impl Clone for FriendsRoute {
    fn clone(&self) -> (r: Self)
        ensures
            r@ == self@,
    {
        FriendsRoute { public_keys: clone_public_keys(&self.public_keys) }
    }
}

/// No element of the sequence occurs twice.
pub open spec fn seq_no_dups<A>(s: Seq<A>) -> bool {
    forall|i: int, j: int| 0 <= i < j < s.len() ==> s[i] != s[j]
}

/// A full route is valid: between 2 and `MAX_ROUTE_LEN` nodes, either with
/// no repetition at all, or a single cycle of length at least 3 in which
/// only the first and last nodes coincide.
pub open spec fn route_valid<A>(r: Seq<A>) -> bool {
    &&& 2 <= r.len() <= MAX_ROUTE_LEN
    &&& if r[0] == r[r.len() - 1] {
        r.len() > 2 && seq_no_dups(r.skip(1))
    } else {
        seq_no_dups(r)
    }
}

/// The remaining part of a route is valid: strictly shorter than
/// `MAX_ROUTE_LEN` and free of repetitions; it may be empty.
pub open spec fn route_part_valid<A>(r: Seq<A>) -> bool {
    r.len() < MAX_ROUTE_LEN && seq_no_dups(r)
}

/// Check that no element from position `from` on repeats in the slice.
fn no_duplicates_from(array: &[u64], from: usize) -> (r: bool)
    requires
        from <= array@.len(),
    ensures
        r == seq_no_dups(array@.skip(from as int)),
{
    let n = array.len();
    let mut i: usize = from;
    while i < n
        invariant
            from <= i <= n,
            n == array@.len(),
            forall|p: int, q: int| from <= p < q < n && p < i ==> array@[p] != array@[q],
        decreases n - i,
    {
        let mut j: usize = i + 1;
        while j < n
            invariant
                from <= i < j <= n,
                n == array@.len(),
                forall|q: int| i < q < j ==> array@[i as int] != array@[q],
            decreases n - j,
        {
            if array[i] == array[j] {
                assert(!seq_no_dups(array@.skip(from as int))) by {
                    let s = array@.skip(from as int);
                    assert(s[i - from] == array@[i as int]);
                    assert(s[j - from] == array@[j as int]);
                }
                return false;
            }
            j = j + 1;
        }
        i = i + 1;
    }
    assert forall|p: int, q: int|
        0 <= p < q < array@.skip(from as int).len() implies array@.skip(from as int)[p]
        != array@.skip(from as int)[q] by {
        assert(array@.skip(from as int)[p] == array@[p + from]);
        assert(array@.skip(from as int)[q] == array@[q + from]);
    }
    true
}

/// Check that no element repeats in the slice.
pub fn no_duplicates(array: &[u64]) -> (r: bool)
    ensures
        r == seq_no_dups(array@),
{
    let r = no_duplicates_from(array, 0);
    assert(array@.skip(0) =~= array@);
    r
}

/// Check whether a route is valid (see `route_valid`).
pub fn is_route_valid(route: &[u64]) -> (r: bool)
    ensures
        r == route_valid(route@),
{
    if route.len() < 2 {
        return false;
    }
    if route.len() > MAX_ROUTE_LEN {
        return false;
    }
    let last: u64 = route[route.len() - 1];
    if route[0] == last {
        if route.len() > 2 {
            no_duplicates_from(route, 1)
        } else {
            false
        }
    } else {
        no_duplicates(route)
    }
}

/// Check whether the remaining part of a route is valid (see
/// `route_part_valid`).
pub fn is_route_part_valid(route: &[u64]) -> (r: bool)
    ensures
        r == route_part_valid(route@),
{
    if route.len() >= MAX_ROUTE_LEN {
        return false;
    }
    no_duplicates(route)
}

/// Check that no public key from position `from` on repeats.
fn route_no_duplicates_from(keys: &Vec<PublicKey>, from: usize) -> (r: bool)
    requires
        from <= keys@.len(),
    ensures
        r == seq_no_dups(pks_view(keys@).skip(from as int)),
{
    let n = keys.len();
    let mut i: usize = from;
    while i < n
        invariant
            from <= i <= n,
            n == keys@.len(),
            forall|p: int, q: int| from <= p < q < n && p < i ==> keys@[p]@ != keys@[q]@,
        decreases n - i,
    {
        let mut j: usize = i + 1;
        while j < n
            invariant
                from <= i < j <= n,
                n == keys@.len(),
                forall|q: int| i < q < j ==> keys@[i as int]@ != keys@[q]@,
            decreases n - j,
        {
            if bytes_eq(&keys[i].bytes, &keys[j].bytes) {
                assert(!seq_no_dups(pks_view(keys@).skip(from as int))) by {
                    let s = pks_view(keys@).skip(from as int);
                    assert(s[i - from] == keys@[i as int]@);
                    assert(s[j - from] == keys@[j as int]@);
                }
                return false;
            }
            j = j + 1;
        }
        i = i + 1;
    }
    assert forall|p: int, q: int|
        0 <= p < q < pks_view(keys@).skip(from as int).len() implies pks_view(keys@).skip(
        from as int,
    )[p] != pks_view(keys@).skip(from as int)[q] by {
        assert(pks_view(keys@).skip(from as int)[p] == keys@[p + from]@);
        assert(pks_view(keys@).skip(from as int)[q] == keys@[q + from]@);
    }
    true
}

impl FriendsRoute {
    pub fn len(&self) -> (r: usize)
        ensures
            r == self@.len(),
    {
        self.public_keys.len()
    }

    pub fn is_empty(&self) -> (r: bool)
        ensures
            r == (self@.len() == 0),
    {
        self.public_keys.len() == 0
    }

    /// Get the public key of a node according to its index.
    pub fn index_to_pk(&self, index: usize) -> (r: Option<&PublicKey>)
        ensures
            match r {
                Some(pk) => index < self@.len() && pk@ == self@[index as int],
                None => index >= self@.len(),
            },
    {
        if index < self.public_keys.len() {
            Some(&self.public_keys[index])
        } else {
            None
        }
    }

    /// Check if the route is valid: at least 2 unique nodes, in one of the
    /// forms `A -- B -- .. -- F` (no repetition) or `A -- B -- .. -- A`
    /// (a single cycle, first equals last, length at least 3).
    pub fn is_valid(&self) -> (r: bool)
        ensures
            r == route_valid(self@),
    {
        if self.public_keys.len() < 2 {
            return false;
        }
        if self.public_keys.len() > MAX_ROUTE_LEN {
            return false;
        }
        let n = self.public_keys.len();
        assert(self@[0] == self.public_keys@[0]@);
        assert(self@[n - 1] == self.public_keys@[n - 1]@);
        assert(pks_view(self.public_keys@).skip(0) =~= pks_view(self.public_keys@));
        if bytes_eq(&self.public_keys[0].bytes, &self.public_keys[n - 1].bytes) {
            if n > 2 {
                route_no_duplicates_from(&self.public_keys, 1)
            } else {
                false
            }
        } else {
            route_no_duplicates_from(&self.public_keys, 0)
        }
    }

    /// Check if the remaining part of a route is valid. Compared to
    /// `is_valid` this does not ask for a minimal number of nodes, and it
    /// accepts no cycle.
    pub fn is_part_valid(&self) -> (r: bool)
        ensures
            r == route_part_valid(self@),
    {
        if self.public_keys.len() >= MAX_ROUTE_LEN {
            return false;
        }
        let r = route_no_duplicates_from(&self.public_keys, 0);
        assert(pks_view(self.public_keys@).skip(0) =~= pks_view(self.public_keys@));
        r
    }

    /// Find the position `i` of the adjacent pair `(a, b)` on the route,
    /// so that `route[i] == a` and `route[i + 1] == b`.
    pub fn find_pk_pair(&self, a: &PublicKey, b: &PublicKey) -> (r: Option<usize>)
        ensures
            match r {
                Some(i) => i + 1 < self@.len() && self@[i as int] == a@ && self@[i + 1] == b@
                    && forall|j: int|
                    0 <= j < i ==> !(#[trigger] self@[j] == a@ && self@[j + 1] == b@),
                None => forall|j: int|
                    0 <= j < self@.len() - 1 ==> !(#[trigger] self@[j] == a@ && self@[j + 1]
                        == b@),
            },
    {
        let n = self.public_keys.len();
        if n < 2 {
            return None;
        }
        let mut i: usize = 0;
        while i < n - 1
            invariant
                n == self.public_keys@.len(),
                n >= 2,
                i <= n - 1,
                forall|j: int| 0 <= j < i ==> !(#[trigger] self@[j] == a@ && self@[j + 1] == b@),
            decreases n - i,
        {
            assert(self@[i as int] == self.public_keys@[i as int]@);
            assert(self@[i + 1] == self.public_keys@[i + 1]@);
            if bytes_eq(&self.public_keys[i].bytes, &a.bytes) && bytes_eq(
                &self.public_keys[i + 1].bytes,
                &b.bytes,
            ) {
                return Some(i);
            }
            i = i + 1;
        }
        None
    }
}

// ---------------------------------------------------------------------------
// Token channel operations
// ---------------------------------------------------------------------------

/// Spec image of a request operation.
pub ghost struct RequestSendFundsOpView {
    pub request_id: Seq<u8>,
    pub currency: Seq<u8>,
    pub src_hashed_lock: Seq<u8>,
    pub route: Seq<Seq<u8>>,
    pub dest_payment: u128,
    pub total_dest_payment: u128,
    pub invoice_id: Seq<u8>,
    pub left_fees: u128,
}

/// A request to move funds along a route.
#[derive(Debug)]
pub struct RequestSendFundsOp {
    pub request_id: Uid,
    /// The currency this request moves; it follows the request into the
    /// pending transaction and the signed response buffer.
    pub currency: Currency,
    pub src_hashed_lock: HashedLock,
    pub route: FriendsRoute,
    pub dest_payment: u128,
    pub total_dest_payment: u128,
    pub invoice_id: InvoiceId,
    pub left_fees: u128,
}

impl View for RequestSendFundsOp {
    type V = RequestSendFundsOpView;

    open spec fn view(&self) -> RequestSendFundsOpView {
        RequestSendFundsOpView {
            request_id: self.request_id@,
            currency: self.currency@,
            src_hashed_lock: self.src_hashed_lock@,
            route: self.route@,
            dest_payment: self.dest_payment,
            total_dest_payment: self.total_dest_payment,
            invoice_id: self.invoice_id@,
            left_fees: self.left_fees,
        }
    }
}

impl Clone for RequestSendFundsOp {
    fn clone(&self) -> (r: Self)
        ensures
            r@ == self@,
    {
        RequestSendFundsOp {
            request_id: self.request_id.clone(),
            currency: self.currency.clone(),
            src_hashed_lock: self.src_hashed_lock.clone(),
            route: self.route.clone(),
            dest_payment: self.dest_payment,
            total_dest_payment: self.total_dest_payment,
            invoice_id: self.invoice_id.clone(),
            left_fees: self.left_fees,
        }
    }
}

/// Spec image of a response operation.
pub ghost struct ResponseSendFundsOpView {
    pub request_id: Seq<u8>,
    pub dest_hashed_lock: Seq<u8>,
    pub rand_nonce: Seq<u8>,
    pub signature: Seq<u8>,
}

/// The destination's signed answer to a request.
#[derive(Debug)]
pub struct ResponseSendFundsOp {
    pub request_id: Uid,
    pub dest_hashed_lock: HashedLock,
    pub rand_nonce: RandValue,
    pub signature: Signature,
}

impl View for ResponseSendFundsOp {
    type V = ResponseSendFundsOpView;

    open spec fn view(&self) -> ResponseSendFundsOpView {
        ResponseSendFundsOpView {
            request_id: self.request_id@,
            dest_hashed_lock: self.dest_hashed_lock@,
            rand_nonce: self.rand_nonce@,
            signature: self.signature@,
        }
    }
}

impl Clone for ResponseSendFundsOp {
    fn clone(&self) -> (r: Self)
        ensures
            r@ == self@,
    {
        ResponseSendFundsOp {
            request_id: self.request_id.clone(),
            dest_hashed_lock: self.dest_hashed_lock.clone(),
            rand_nonce: self.rand_nonce.clone(),
            signature: self.signature.clone(),
        }
    }
}

/// Spec image of a cancel operation.
pub ghost struct CancelSendFundsOpView {
    pub request_id: Seq<u8>,
}

/// Terminates a pending request and releases its reservation.
#[derive(Debug)]
pub struct CancelSendFundsOp {
    pub request_id: Uid,
}

impl View for CancelSendFundsOp {
    type V = CancelSendFundsOpView;

    open spec fn view(&self) -> CancelSendFundsOpView {
        CancelSendFundsOpView { request_id: self.request_id@ }
    }
}

impl Clone for CancelSendFundsOp {
    fn clone(&self) -> (r: Self)
        ensures
            r@ == self@,
    {
        CancelSendFundsOp { request_id: self.request_id.clone() }
    }
}

/// Spec image of a collect operation.
pub ghost struct CollectSendFundsOpView {
    pub request_id: Seq<u8>,
    pub src_plain_lock: Seq<u8>,
    pub dest_plain_lock: Seq<u8>,
}

/// Reveals both plain locks and moves the credits of a responded request.
#[derive(Debug)]
pub struct CollectSendFundsOp {
    pub request_id: Uid,
    pub src_plain_lock: PlainLock,
    pub dest_plain_lock: PlainLock,
}

impl View for CollectSendFundsOp {
    type V = CollectSendFundsOpView;

    open spec fn view(&self) -> CollectSendFundsOpView {
        CollectSendFundsOpView {
            request_id: self.request_id@,
            src_plain_lock: self.src_plain_lock@,
            dest_plain_lock: self.dest_plain_lock@,
        }
    }
}

impl Clone for CollectSendFundsOp {
    fn clone(&self) -> (r: Self)
        ensures
            r@ == self@,
    {
        CollectSendFundsOp {
            request_id: self.request_id.clone(),
            src_plain_lock: self.src_plain_lock.clone(),
            dest_plain_lock: self.dest_plain_lock.clone(),
        }
    }
}

/// Spec image of a token channel operation.
pub ghost enum FriendTcOpView {
    EnableRequests,
    DisableRequests,
    SetRemoteMaxDebt(u128),
    RequestSendFunds(RequestSendFundsOpView),
    ResponseSendFunds(ResponseSendFundsOpView),
    CancelSendFunds(CancelSendFundsOpView),
    CollectSendFunds(CollectSendFundsOpView),
}

/// One operation carried inside a `MoveToken`.
#[derive(Debug)]
pub enum FriendTcOp {
    EnableRequests,
    DisableRequests,
    SetRemoteMaxDebt(u128),
    RequestSendFunds(RequestSendFundsOp),
    ResponseSendFunds(ResponseSendFundsOp),
    CancelSendFunds(CancelSendFundsOp),
    CollectSendFunds(CollectSendFundsOp),
}

impl View for FriendTcOp {
    type V = FriendTcOpView;

    open spec fn view(&self) -> FriendTcOpView {
        match self {
            FriendTcOp::EnableRequests => FriendTcOpView::EnableRequests,
            FriendTcOp::DisableRequests => FriendTcOpView::DisableRequests,
            FriendTcOp::SetRemoteMaxDebt(x) => FriendTcOpView::SetRemoteMaxDebt(*x),
            FriendTcOp::RequestSendFunds(op) => FriendTcOpView::RequestSendFunds(op@),
            FriendTcOp::ResponseSendFunds(op) => FriendTcOpView::ResponseSendFunds(op@),
            FriendTcOp::CancelSendFunds(op) => FriendTcOpView::CancelSendFunds(op@),
            FriendTcOp::CollectSendFunds(op) => FriendTcOpView::CollectSendFunds(op@),
        }
    }
}

impl Clone for FriendTcOp {
    fn clone(&self) -> (r: Self)
        ensures
            r@ == self@,
    {
        match self {
            FriendTcOp::EnableRequests => FriendTcOp::EnableRequests,
            FriendTcOp::DisableRequests => FriendTcOp::DisableRequests,
            FriendTcOp::SetRemoteMaxDebt(x) => FriendTcOp::SetRemoteMaxDebt(*x),
            FriendTcOp::RequestSendFunds(op) => FriendTcOp::RequestSendFunds(op.clone()),
            FriendTcOp::ResponseSendFunds(op) => FriendTcOp::ResponseSendFunds(op.clone()),
            FriendTcOp::CancelSendFunds(op) => FriendTcOp::CancelSendFunds(op.clone()),
            FriendTcOp::CollectSendFunds(op) => FriendTcOp::CollectSendFunds(op.clone()),
        }
    }
}

/// The spec image of a sequence of operations.
pub open spec fn ops_view(s: Seq<FriendTcOp>) -> Seq<FriendTcOpView> {
    s.map_values(|op: FriendTcOp| op@)
}

/// Copy a vector of operations.
pub fn clone_ops(v: &Vec<FriendTcOp>) -> (r: Vec<FriendTcOp>)
    ensures
        ops_view(r@) == ops_view(v@),
        r@.len() == v@.len(),
        forall|i: int| 0 <= i < v@.len() ==> r@[i]@ == v@[i]@,
{
    let mut out: Vec<FriendTcOp> = Vec::new();
    let mut i: usize = 0;
    while i < v.len()
        invariant
            i <= v.len(),
            out@.len() == i,
            forall|j: int| 0 <= j < i ==> out@[j]@ == v@[j]@,
        decreases v.len() - i,
    {
        out.push(v[i].clone());
        i = i + 1;
    }
    assert(ops_view(out@) =~= ops_view(v@));
    out
}

// ---------------------------------------------------------------------------
// Pending transactions
// ---------------------------------------------------------------------------

/// Spec image of a transaction stage.
pub ghost enum TransactionStageView {
    Request,
    Response(Seq<u8>),
}

/// Where a pending transaction stands: still awaiting a response, or
/// responded with the destination's hashed lock.
#[derive(Debug)]
pub enum TransactionStage {
    Request,
    Response(HashedLock),
}

impl View for TransactionStage {
    type V = TransactionStageView;

    open spec fn view(&self) -> TransactionStageView {
        match self {
            TransactionStage::Request => TransactionStageView::Request,
            TransactionStage::Response(hl) => TransactionStageView::Response(hl@),
        }
    }
}

impl Clone for TransactionStage {
    fn clone(&self) -> (r: Self)
        ensures
            r@ == self@,
    {
        match self {
            TransactionStage::Request => TransactionStage::Request,
            TransactionStage::Response(hl) => TransactionStage::Response(hl.clone()),
        }
    }
}

/// Spec image of a pending transaction.
pub ghost struct PendingTransactionView {
    pub request_id: Seq<u8>,
    pub currency: Seq<u8>,
    pub route: Seq<Seq<u8>>,
    pub dest_payment: u128,
    pub total_dest_payment: u128,
    pub invoice_id: Seq<u8>,
    pub left_fees: u128,
    pub src_hashed_lock: Seq<u8>,
    pub stage: TransactionStageView,
}

impl PendingTransactionView {
    /// The credits this transaction keeps reserved.
    pub open spec fn amount(&self) -> int {
        self.dest_payment + self.left_fees
    }
}

/// The originating request, as remembered while it is unresolved.
#[derive(Debug)]
pub struct PendingTransaction {
    pub request_id: Uid,
    /// The currency of the originating request.
    pub currency: Currency,
    pub route: FriendsRoute,
    pub dest_payment: u128,
    pub total_dest_payment: u128,
    pub invoice_id: InvoiceId,
    pub left_fees: u128,
    pub src_hashed_lock: HashedLock,
    pub stage: TransactionStage,
}

impl View for PendingTransaction {
    type V = PendingTransactionView;

    open spec fn view(&self) -> PendingTransactionView {
        PendingTransactionView {
            request_id: self.request_id@,
            currency: self.currency@,
            route: self.route@,
            dest_payment: self.dest_payment,
            total_dest_payment: self.total_dest_payment,
            invoice_id: self.invoice_id@,
            left_fees: self.left_fees,
            src_hashed_lock: self.src_hashed_lock@,
            stage: self.stage@,
        }
    }
}

impl Clone for PendingTransaction {
    fn clone(&self) -> (r: Self)
        ensures
            r@ == self@,
    {
        PendingTransaction {
            request_id: self.request_id.clone(),
            currency: self.currency.clone(),
            route: self.route.clone(),
            dest_payment: self.dest_payment,
            total_dest_payment: self.total_dest_payment,
            invoice_id: self.invoice_id.clone(),
            left_fees: self.left_fees,
            src_hashed_lock: self.src_hashed_lock.clone(),
            stage: self.stage.clone(),
        }
    }
}

// ---------------------------------------------------------------------------
// Commits and receipts
// ---------------------------------------------------------------------------

/// Spec image of a commit.
pub ghost struct CommitView {
    pub response_hash: Seq<u8>,
    pub dest_payment: u128,
    pub src_plain_lock: Seq<u8>,
    pub dest_hashed_lock: Seq<u8>,
    pub signature: Seq<u8>,
}

/// A signed record the buyer hands the seller, enabling the seller to
/// claim funds from its upstream friend.
#[derive(Debug)]
pub struct Commit {
    pub response_hash: HashResult,
    pub dest_payment: u128,
    pub src_plain_lock: PlainLock,
    pub dest_hashed_lock: HashedLock,
    pub signature: Signature,
}

impl View for Commit {
    type V = CommitView;

    open spec fn view(&self) -> CommitView {
        CommitView {
            response_hash: self.response_hash@,
            dest_payment: self.dest_payment,
            src_plain_lock: self.src_plain_lock@,
            dest_hashed_lock: self.dest_hashed_lock@,
            signature: self.signature@,
        }
    }
}

impl Clone for Commit {
    fn clone(&self) -> (r: Self)
        ensures
            r@ == self@,
    {
        Commit {
            response_hash: self.response_hash.clone(),
            dest_payment: self.dest_payment,
            src_plain_lock: self.src_plain_lock.clone(),
            dest_hashed_lock: self.dest_hashed_lock.clone(),
            signature: self.signature.clone(),
        }
    }
}

/// Spec image of a multi-route commit set.
pub ghost struct MultiCommitView {
    pub invoice_id: Seq<u8>,
    pub currency: Seq<u8>,
    pub total_dest_payment: u128,
    pub commits: Seq<CommitView>,
}

/// All the commits of one multi-route payment for a single invoice.
#[derive(Debug)]
pub struct MultiCommit {
    pub invoice_id: InvoiceId,
    pub currency: Currency,
    pub total_dest_payment: u128,
    pub commits: Vec<Commit>,
}

impl View for MultiCommit {
    type V = MultiCommitView;

    open spec fn view(&self) -> MultiCommitView {
        MultiCommitView {
            invoice_id: self.invoice_id@,
            currency: self.currency@,
            total_dest_payment: self.total_dest_payment,
            commits: self.commits@.map_values(|c: Commit| c@),
        }
    }
}

/// Spec image of a receipt.
pub ghost struct ReceiptView {
    pub response_hash: Seq<u8>,
    pub invoice_id: Seq<u8>,
    pub currency: Seq<u8>,
    pub src_plain_lock: Seq<u8>,
    pub dest_plain_lock: Seq<u8>,
    pub dest_payment: u128,
    pub total_dest_payment: u128,
    pub signature: Seq<u8>,
}

/// A signed seller statement acknowledging payment completion for a
/// specific invoice; proof of payment for the buyer.
#[derive(Debug)]
pub struct Receipt {
    pub response_hash: HashResult,
    pub invoice_id: InvoiceId,
    pub currency: Currency,
    pub src_plain_lock: PlainLock,
    pub dest_plain_lock: PlainLock,
    pub dest_payment: u128,
    pub total_dest_payment: u128,
    pub signature: Signature,
}

impl View for Receipt {
    type V = ReceiptView;

    open spec fn view(&self) -> ReceiptView {
        ReceiptView {
            response_hash: self.response_hash@,
            invoice_id: self.invoice_id@,
            currency: self.currency@,
            src_plain_lock: self.src_plain_lock@,
            dest_plain_lock: self.dest_plain_lock@,
            dest_payment: self.dest_payment,
            total_dest_payment: self.total_dest_payment,
            signature: self.signature@,
        }
    }
}

impl Clone for Receipt {
    fn clone(&self) -> (r: Self)
        ensures
            r@ == self@,
    {
        Receipt {
            response_hash: self.response_hash.clone(),
            invoice_id: self.invoice_id.clone(),
            currency: self.currency.clone(),
            src_plain_lock: self.src_plain_lock.clone(),
            dest_plain_lock: self.dest_plain_lock.clone(),
            dest_payment: self.dest_payment,
            total_dest_payment: self.total_dest_payment,
            signature: self.signature.clone(),
        }
    }
}

// ---------------------------------------------------------------------------
// Relays and move tokens
// ---------------------------------------------------------------------------

/// Spec image of a relay address.
pub ghost struct RelayAddressView {
    pub public_key: Seq<u8>,
    pub address: Seq<u8>,
}

/// A relay through which a node can be reached.
#[derive(Debug)]
pub struct RelayAddress {
    pub public_key: PublicKey,
    pub address: NetAddress,
}

impl View for RelayAddress {
    type V = RelayAddressView;

    open spec fn view(&self) -> RelayAddressView {
        RelayAddressView { public_key: self.public_key@, address: self.address@ }
    }
}

impl Clone for RelayAddress {
    fn clone(&self) -> (r: Self)
        ensures
            r@ == self@,
    {
        RelayAddress { public_key: self.public_key.clone(), address: self.address.clone() }
    }
}

/// A relay address under a local, human readable name.
#[derive(Debug)]
pub struct NamedRelayAddress {
    pub public_key: PublicKey,
    pub address: NetAddress,
    pub name: String,
}

impl Clone for NamedRelayAddress {
    fn clone(&self) -> (r: Self)
        ensures
            r.public_key@ == self.public_key@,
            r.address@ == self.address@,
    {
        NamedRelayAddress {
            public_key: self.public_key.clone(),
            address: self.address.clone(),
            name: self.name.clone(),
        }
    }
}

/// The spec image of a sequence of relay addresses.
pub open spec fn relays_view(s: Seq<RelayAddress>) -> Seq<RelayAddressView> {
    s.map_values(|r: RelayAddress| r@)
}

/// Copy a vector of relay addresses.
pub fn clone_relays(v: &Vec<RelayAddress>) -> (r: Vec<RelayAddress>)
    ensures
        relays_view(r@) == relays_view(v@),
        r@.len() == v@.len(),
        forall|i: int| 0 <= i < v@.len() ==> r@[i]@ == v@[i]@,
{
    let mut out: Vec<RelayAddress> = Vec::new();
    let mut i: usize = 0;
    while i < v.len()
        invariant
            i <= v.len(),
            out@.len() == i,
            forall|j: int| 0 <= j < i ==> out@[j]@ == v@[j]@,
        decreases v.len() - i,
    {
        out.push(v[i].clone());
        i = i + 1;
    }
    assert(relays_view(out@) =~= relays_view(v@));
    out
}

/// The relay list a `MoveToken` may carry: nothing, or a full update.
#[derive(Debug)]
pub enum OptLocalRelays {
    Empty,
    Relays(Vec<RelayAddress>),
}

/// Spec image of a move token.
pub ghost struct MoveTokenView {
    pub operations: Seq<FriendTcOpView>,
    pub opt_local_relays: Option<Seq<RelayAddressView>>,
    pub old_token: Seq<u8>,
    pub info_hash: Seq<u8>,
    pub rand_nonce: Seq<u8>,
    pub new_token: Seq<u8>,
}

/// A signed message batching operations and transferring the token to
/// the peer.
#[derive(Debug)]
pub struct MoveToken {
    pub operations: Vec<FriendTcOp>,
    pub opt_local_relays: Option<Vec<RelayAddress>>,
    pub old_token: Signature,
    pub info_hash: HashResult,
    pub rand_nonce: RandValue,
    pub new_token: Signature,
}

/// The spec image of an optional relay list.
pub open spec fn opt_relays_view(opt: Option<Vec<RelayAddress>>) -> Option<Seq<RelayAddressView>> {
    match opt {
        Some(v) => Some(relays_view(v@)),
        None => None,
    }
}

impl View for MoveToken {
    type V = MoveTokenView;

    open spec fn view(&self) -> MoveTokenView {
        MoveTokenView {
            operations: ops_view(self.operations@),
            opt_local_relays: opt_relays_view(self.opt_local_relays),
            old_token: self.old_token@,
            info_hash: self.info_hash@,
            rand_nonce: self.rand_nonce@,
            new_token: self.new_token@,
        }
    }
}

/// Copy an optional relay list.
pub fn clone_opt_relays(v: &Option<Vec<RelayAddress>>) -> (r: Option<Vec<RelayAddress>>)
    ensures
        opt_relays_view(r) == opt_relays_view(*v),
{
    match v {
        Some(relays) => Some(clone_relays(relays)),
        None => None,
    }
}

impl Clone for MoveToken {
    fn clone(&self) -> (r: Self)
        ensures
            r@ == self@,
    {
        MoveToken {
            operations: clone_ops(&self.operations),
            opt_local_relays: clone_opt_relays(&self.opt_local_relays),
            old_token: self.old_token.clone(),
            info_hash: self.info_hash.clone(),
            rand_nonce: self.rand_nonce.clone(),
            new_token: self.new_token.clone(),
        }
    }
}

/// Spec image of a move token that has not been signed yet.
pub ghost struct UnsignedMoveTokenView {
    pub operations: Seq<FriendTcOpView>,
    pub opt_local_relays: Option<Seq<RelayAddressView>>,
    pub old_token: Seq<u8>,
    pub info_hash: Seq<u8>,
    pub rand_nonce: Seq<u8>,
}

/// A move token before the identity signature is attached.
#[derive(Debug)]
pub struct UnsignedMoveToken {
    pub operations: Vec<FriendTcOp>,
    pub opt_local_relays: Option<Vec<RelayAddress>>,
    pub old_token: Signature,
    pub info_hash: HashResult,
    pub rand_nonce: RandValue,
}

impl View for UnsignedMoveToken {
    type V = UnsignedMoveTokenView;

    open spec fn view(&self) -> UnsignedMoveTokenView {
        UnsignedMoveTokenView {
            operations: ops_view(self.operations@),
            opt_local_relays: opt_relays_view(self.opt_local_relays),
            old_token: self.old_token@,
            info_hash: self.info_hash@,
            rand_nonce: self.rand_nonce@,
        }
    }
}

/// Spec image of reset terms.
pub ghost struct ResetTermsView {
    pub reset_token: Seq<u8>,
    pub inconsistency_counter: u64,
    pub balance_for_reset: i128,
}

/// A signed agreement that lets two friends resume after their token
/// chains diverged.
#[derive(Debug)]
pub struct ResetTerms {
    pub reset_token: Signature,
    pub inconsistency_counter: u64,
    pub balance_for_reset: i128,
}

impl View for ResetTerms {
    type V = ResetTermsView;

    open spec fn view(&self) -> ResetTermsView {
        ResetTermsView {
            reset_token: self.reset_token@,
            inconsistency_counter: self.inconsistency_counter,
            balance_for_reset: self.balance_for_reset,
        }
    }
}

impl Clone for ResetTerms {
    fn clone(&self) -> (r: Self)
        ensures
            r@ == self@,
    {
        ResetTerms {
            reset_token: self.reset_token.clone(),
            inconsistency_counter: self.inconsistency_counter,
            balance_for_reset: self.balance_for_reset,
        }
    }
}

/// A move token together with the wish to get the token back.
#[derive(Debug)]
pub struct MoveTokenRequest {
    pub move_token: MoveToken,
    pub token_wanted: bool,
}

/// What one friend sends another over the transport.
#[derive(Debug)]
pub enum FriendMessage {
    MoveTokenRequest(MoveTokenRequest),
    InconsistencyError(ResetTerms),
}

/// Spec image of the token channel summary that both sides hash.
pub ghost struct TokenInfoView {
    pub local_public_key: Seq<u8>,
    pub remote_public_key: Seq<u8>,
    pub inconsistency_counter: u64,
    pub move_token_counter: u128,
    pub balance: i128,
    pub local_pending_debt: u128,
    pub remote_pending_debt: u128,
}

/// The channel summary whose hash a `MoveToken` carries as `info_hash`.
#[derive(Debug)]
pub struct TokenInfo {
    pub local_public_key: PublicKey,
    pub remote_public_key: PublicKey,
    pub inconsistency_counter: u64,
    pub move_token_counter: u128,
    pub balance: i128,
    pub local_pending_debt: u128,
    pub remote_pending_debt: u128,
}

impl View for TokenInfo {
    type V = TokenInfoView;

    open spec fn view(&self) -> TokenInfoView {
        TokenInfoView {
            local_public_key: self.local_public_key@,
            remote_public_key: self.remote_public_key@,
            inconsistency_counter: self.inconsistency_counter,
            move_token_counter: self.move_token_counter,
            balance: self.balance,
            local_pending_debt: self.local_pending_debt,
            remote_pending_debt: self.remote_pending_debt,
        }
    }
}

impl Clone for TokenInfo {
    fn clone(&self) -> (r: Self)
        ensures
            r@ == self@,
    {
        TokenInfo {
            local_public_key: self.local_public_key.clone(),
            remote_public_key: self.remote_public_key.clone(),
            inconsistency_counter: self.inconsistency_counter,
            move_token_counter: self.move_token_counter,
            balance: self.balance,
            local_pending_debt: self.local_pending_debt,
            remote_pending_debt: self.remote_pending_debt,
        }
    }
}

// ---------------------------------------------------------------------------
// Statuses and rates
// ---------------------------------------------------------------------------

/// Whether we attempt to keep a channel with a friend alive.
#[derive(Clone, Copy, Debug, PartialEq, Eq, Structural)]
pub enum FriendStatus {
    Enabled,
    Disabled,
}

/// Whether one side of a channel accepts incoming forwarded requests.
#[derive(Clone, Copy, Debug, PartialEq, Eq, Structural)]
pub enum RequestsStatus {
    Open,
    Closed,
}

impl RequestsStatus {
    pub fn is_open(&self) -> (r: bool)
        ensures
            r == (*self == RequestsStatus::Open),
    {
        match self {
            RequestsStatus::Open => true,
            RequestsStatus::Closed => false,
        }
    }
}

/// The fee a transaction of `x` credits pays at a forwarding hop:
/// `(x * mul) / 2^32 + add`.
pub open spec fn rate_fee(mul: u32, add: u32, dest_payment: u128) -> int {
    (dest_payment * mul) / 0x100000000 + add
}

/// The largest `x` with `x + rate_fee(x) <= capacity`, i.e.
/// `((capacity - add) * 2^32) / (mul + 2^32)`, and 0 when `capacity < add`.
pub open spec fn rate_max_payable(mul: u32, add: u32, capacity: u128) -> int {
    if capacity < add {
        0
    } else {
        ((capacity - add) * 0x100000000) / (mul + 0x100000000)
    }
}

/// An update of a friend's relays sent to the channeler.
#[derive(Debug)]
pub struct ChannelerUpdateFriend {
    pub friend_public_key: PublicKey,
    /// We should try to connect through these relays:
    pub friend_relays: Vec<RelayAddress>,
    /// We should be listening on these relays:
    pub local_relays: Vec<RelayAddress>,
}

/// What the funder sends to the channeler.
#[derive(Debug)]
pub enum FunderToChanneler {
    /// Send a message to a friend
    Message(PublicKey, Vec<u8>),
    /// Set the relays used by the local node
    SetRelays(Vec<RelayAddress>),
    /// Add a new friend or update a friend's information
    UpdateFriend(ChannelerUpdateFriend),
    /// Remove a friend
    RemoveFriend(PublicKey),
}

/// What the channeler reports back to the funder.
#[derive(Debug)]
pub enum ChannelerToFunder {
    /// A friend is now online
    Online(PublicKey),
    /// A friend is now offline
    Offline(PublicKey),
    /// An incoming message from a remote friend
    Message(PublicKey, Vec<u8>),
}

/// Rates for forwarding a transaction.
/// For a transaction of `x` credits, the fee is `(x * mul) / 2^32 + add`.
#[derive(Clone, Copy, Debug, PartialEq, Eq, Structural)]
pub struct Rate {
    /// Commission
    pub mul: u32,
    /// Flat rate
    pub add: u32,
}

impl Rate {
    pub fn new() -> (r: Self)
        ensures
            r.mul == 0,
            r.add == 0,
    {
        Rate { mul: 0, add: 0 }
    }

    /// Calculate the additional fee credits we have to pay if we want to
    /// pay `dest_payment` credits through this hop.
    pub fn calc_fee(&self, dest_payment: u128) -> (r: Option<u128>)
        ensures
            match r {
                Some(f) => f == rate_fee(self.mul, self.add, dest_payment),
                None => rate_fee(self.mul, self.add, dest_payment) > u128::MAX,
            },
    {
        let x = dest_payment;
        let m = self.mul as u128;
        let hi = x >> 32;
        let lo = x & 0xffffffff;
        proof {
            assert(x == (x >> 32u128) * 0x100000000 + (x & 0xffffffff) && (x & 0xffffffff)
                < 0x100000000 && (x >> 32u128) < 0x1000000000000000000000000) by (bit_vector);
            assert(hi * m <= u128::MAX) by (nonlinear_arith)
                requires
                    hi < 0x1000000000000000000000000,
                    m < 0x100000000,
            ;
            assert(lo * m < 0x10000000000000000) by (nonlinear_arith)
                requires
                    lo < 0x100000000,
                    m < 0x100000000,
            ;
        }
        let t1 = hi * m;
        let lm = lo * m;
        let t2 = lm >> 32;
        proof {
            assert(t2 == lm / 0x100000000) by (bit_vector)
                requires
                    t2 == lm >> 32u128,
            ;
            // (x * m) / 2^32 == hi * m + (lo * m) / 2^32
            vstd::arithmetic::div_mod::lemma_hoist_over_denominator(
                lm as int,
                t1 as int,
                0x100000000,
            );
            assert(lo * m + hi * m * 0x100000000 == x * m) by (nonlinear_arith)
                requires
                    x == hi * 0x100000000 + lo,
            ;
            assert(t1 + t2 == (x * m) / 0x100000000);
            assert(t1 + t2 <= u128::MAX) by {
                assert(x * m < 0x100000000 * (u128::MAX + 1) && x * m < (u128::MAX + 1)
                    * 0x100000000) by (nonlinear_arith)
                    requires
                        x <= u128::MAX,
                        m < 0x100000000,
                ;
                vstd::arithmetic::div_mod::lemma_multiply_divide_lt(
                    (x * m) as int,
                    0x100000000,
                    u128::MAX + 1,
                );
            }
        }
        let mul_res = t1 + t2;
        if mul_res <= u128::MAX - (self.add as u128) {
            Some(mul_res + (self.add as u128))
        } else {
            None
        }
    }

    /// Maximum amount of credits we should be able to pay through a given
    /// capacity, fee included.
    pub fn max_payable(&self, capacity: u128) -> (r: u128)
        ensures
            r == rate_max_payable(self.mul, self.add, capacity),
    {
        let long_add = self.add as u128;
        if capacity < long_add {
            return 0;
        }
        let c = capacity - long_add;
        let d = (self.mul as u128) + 0x100000000;
        let q = c / d;
        let rem = c % d;
        proof {
            vstd::arithmetic::div_mod::lemma_fundamental_div_mod(c as int, d as int);
            vstd::arithmetic::div_mod::lemma_mod_division_less_than_divisor(c as int, d as int);
            // q * 2^32 <= q * d <= c
            assert(q * 0x100000000 <= q * d && q * d <= c) by (nonlinear_arith)
                requires
                    0x100000000 <= d,
                    c == d * q + rem,
                    0 <= rem,
                    0 <= q,
            ;
            // rem * 2^32 fits easily
            assert(rem * 0x100000000 < 0x200000000 * 0x100000000) by (nonlinear_arith)
                requires
                    rem < 0x200000000,
            ;
        }
        let t = q * 0x100000000;
        let s = (rem * 0x100000000) / d;
        proof {
            // (c * 2^32) / d == q * 2^32 + (rem * 2^32) / d
            vstd::arithmetic::div_mod::lemma_hoist_over_denominator(
                rem * 0x100000000,
                (q * 0x100000000) as int,
                d as nat,
            );
            assert(rem * 0x100000000 + q * 0x100000000 * d == c * 0x100000000) by (nonlinear_arith)
                requires
                    c == d * q + rem,
            ;
            // the sum stays within c
            assert(s <= rem) by {
                assert(rem * 0x100000000 <= rem * d) by (nonlinear_arith)
                    requires
                        0x100000000 <= d,
                        0 <= rem,
                ;
                vstd::arithmetic::div_mod::lemma_div_is_ordered(
                    (rem * 0x100000000) as int,
                    (rem * d) as int,
                    d as int,
                );
                vstd::arithmetic::div_mod::lemma_div_by_multiple(rem as int, d as int);
            }
            assert(t + s <= c) by {
                assert(q * 0x100000000 + rem <= c);
            }
        }
        t + s
    }
}


// ---------------------------------------------------------------------------
// Application-facing control messages
// ---------------------------------------------------------------------------

/// Add a friend with its relays, a name and an initial balance.
#[derive(Debug)]
pub struct AddFriend {
    pub friend_public_key: PublicKey,
    pub relays: Vec<RelayAddress>,
    pub name: String,
    /// Initial balance
    pub balance: i128,
}

/// Remove a friend.
#[derive(Debug)]
pub struct RemoveFriend {
    pub friend_public_key: PublicKey,
}

/// Open or close our side of the channel with a friend.
#[derive(Debug)]
pub struct SetRequestsStatus {
    pub friend_public_key: PublicKey,
    pub status: RequestsStatus,
}

/// Enable or disable a friend.
#[derive(Debug)]
pub struct SetFriendStatus {
    pub friend_public_key: PublicKey,
    pub status: FriendStatus,
}

/// Adjust the ceiling we grant a friend.
#[derive(Debug)]
pub struct SetFriendRemoteMaxDebt {
    pub friend_public_key: PublicKey,
    pub remote_max_debt: u128,
}

/// Rename a friend.
#[derive(Debug)]
pub struct SetFriendName {
    pub friend_public_key: PublicKey,
    pub name: String,
}

/// Replace the relays we use to reach a friend.
#[derive(Debug)]
pub struct SetFriendRelays {
    pub friend_public_key: PublicKey,
    pub relays: Vec<RelayAddress>,
}

/// Accept a friend's reset terms, identified by its reset token.
#[derive(Debug)]
pub struct ResetFriendChannel {
    pub friend_public_key: PublicKey,
    pub reset_token: Signature,
}

/// Set the forwarding fee rate for a friend.
#[derive(Debug)]
pub struct SetFriendRate {
    pub friend_public_key: PublicKey,
    pub rate: Rate,
}

/// Acknowledge a received receipt.
#[derive(Debug)]
pub struct ReceiptAck {
    pub request_id: Uid,
    pub receipt_signature: Signature,
}

/// Start a payment, possibly through multiple routes.
#[derive(Debug)]
pub struct CreatePayment {
    /// A value generated by the user, naming this payment.
    pub payment_id: PaymentId,
    pub invoice_id: InvoiceId,
    pub total_dest_payment: u128,
    pub dest_public_key: PublicKey,
}

/// Start one transaction of an open payment along a chosen route.
#[derive(Debug)]
pub struct CreateTransaction {
    /// A payment id of an existing payment.
    pub payment_id: PaymentId,
    /// A value generated by the user, naming this transaction.
    pub request_id: Uid,
    pub route: FriendsRoute,
    pub dest_payment: u128,
    pub fees: u128,
}

/// Open an invoice: a request for payment.
#[derive(Debug)]
pub struct AddInvoice {
    /// A value naming this invoice.
    pub invoice_id: InvoiceId,
    /// Total amount of credits to be paid.
    pub total_dest_payment: u128,
}

/// Acknowledge that a payment reached a terminal state.
#[derive(Debug)]
pub struct AckClosePayment {
    pub payment_id: PaymentId,
    pub ack_uid: Uid,
}

/// Every control command the application can give the funder.
#[derive(Debug)]
pub enum FunderControl {
    AddRelay(NamedRelayAddress),
    RemoveRelay(PublicKey),
    AddFriend(AddFriend),
    RemoveFriend(RemoveFriend),
    SetRequestsStatus(SetRequestsStatus),
    SetFriendStatus(SetFriendStatus),
    SetFriendRemoteMaxDebt(SetFriendRemoteMaxDebt),
    SetFriendRelays(SetFriendRelays),
    SetFriendName(SetFriendName),
    SetFriendRate(SetFriendRate),
    ResetFriendChannel(ResetFriendChannel),
    CreatePayment(CreatePayment),
    CreateTransaction(CreateTransaction),
    RequestClosePayment(PaymentId),
    AckClosePayment(AckClosePayment),
    AddInvoice(AddInvoice),
    CancelInvoice(InvoiceId),
    CommitInvoice(MultiCommit),
}

/// A control command together with the id the application chose for it.
#[derive(Debug)]
pub struct FunderIncomingControl {
    pub app_request_id: Uid,
    pub funder_control: FunderControl,
}

impl FunderIncomingControl {
    pub fn new(app_request_id: Uid, funder_control: FunderControl) -> (r: FunderIncomingControl)
        ensures
            r.app_request_id@ == app_request_id@,
    {
        FunderIncomingControl { app_request_id, funder_control }
    }
}

/// How one transaction ended: a commit to hand the seller, or failure.
#[derive(Debug)]
pub enum RequestResult {
    Success(Commit),
    Failure,
}

/// The outcome of one transaction, reported to the application.
#[derive(Debug)]
pub struct TransactionResult {
    pub request_id: Uid,
    pub result: RequestResult,
}

/// A successfully closed payment: the receipt and an ack id.
#[derive(Debug)]
pub struct PaymentStatusSuccess {
    pub receipt: Receipt,
    pub ack_uid: Uid,
}

/// Where a payment stands when the application asks to close it.
#[derive(Debug)]
pub enum PaymentStatus {
    PaymentNotFound,
    /// Can not be acked yet
    InProgress,
    Success(PaymentStatusSuccess),
    Canceled(Uid),
}

/// The funder's answer to a close-payment request.
#[derive(Debug)]
pub struct ResponseClosePayment {
    pub payment_id: PaymentId,
    pub status: PaymentStatus,
}

/// Everything the funder reports back to the application.
#[derive(Debug)]
pub enum FunderOutgoingControl {
    TransactionResult(TransactionResult),
    ResponseClosePayment(ResponseClosePayment),
}

} // verus!
