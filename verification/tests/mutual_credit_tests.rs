//! The mutual-credit unit under its operation set: gates, ceilings, the
//! request / response / collect lifecycle and cancellation, with the
//! credit-safety bounds checked along the way.

use offst::MAX_FUNDER_DEBT;
use offst::crypto::{
    Currency, InvoiceId, PlainLock, PrivateKey, PublicKey, RandValue, Signature, Uid,
    derive_public_key, sign_buffer,
};
use offst::messages::{
    CancelSendFundsOp, CollectSendFundsOp, FriendTcOp, FriendsRoute, RequestSendFundsOp,
    RequestsStatus, ResponseSendFundsOp,
};
use offst::mutual_credit::{
    McMutation, MutualCredit, OutgoingMc, ProcessOperationError, ProcessOperationOutput,
    QueueOperationError, create_pending_transaction, process_operation,
};
use offst::signature_buff::create_response_signature_buffer;

/// Helper function for applying an outgoing operation over a unit.
fn apply_outgoing(
    mutual_credit: &mut MutualCredit,
    friend_tc_op: &FriendTcOp,
) -> Result<(), QueueOperationError> {
    let mut outgoing = OutgoingMc::new(mutual_credit);
    let mutations = outgoing.queue_operation(friend_tc_op)?;
    for mutation in &mutations {
        mutual_credit.mutate(mutation);
    }
    Ok(())
}

/// Helper function for applying an incoming operation over a unit.
fn apply_incoming(
    mutual_credit: &mut MutualCredit,
    friend_tc_op: FriendTcOp,
) -> Result<ProcessOperationOutput, ProcessOperationError> {
    process_operation(mutual_credit, friend_tc_op)
}

/// The per-unit credit-safety bounds.
fn check_debt_limits(mutual_credit: &MutualCredit) {
    let b = &mutual_credit.state().balance;
    let balance = b.balance as i128;
    assert!(balance - (b.local_pending_debt as i128) >= -(b.local_max_debt as i128));
    assert!(balance + (b.remote_pending_debt as i128) <= b.remote_max_debt as i128);
}

fn pk(byte: u8) -> PublicKey {
    PublicKey::from_bytes(vec![byte; 32])
}

fn currency_fst() -> Currency {
    Currency::from_bytes(b"FST".to_vec())
}

#[test]
fn test_outgoing_open_close_requests() {
    let local_public_key = pk(0xaa);
    let remote_public_key = pk(0xbb);
    let balance = 0;
    let mut mutual_credit = MutualCredit::new(&local_public_key, &remote_public_key, balance);

    assert_eq!(mutual_credit.state().requests_status.local, RequestsStatus::Closed);
    assert_eq!(mutual_credit.state().requests_status.remote, RequestsStatus::Closed);

    apply_outgoing(&mut mutual_credit, &FriendTcOp::EnableRequests).unwrap();
    assert_eq!(mutual_credit.state().requests_status.local, RequestsStatus::Open);
    assert_eq!(mutual_credit.state().requests_status.remote, RequestsStatus::Closed);

    apply_outgoing(&mut mutual_credit, &FriendTcOp::DisableRequests).unwrap();
    assert_eq!(mutual_credit.state().requests_status.local, RequestsStatus::Closed);
    assert_eq!(mutual_credit.state().requests_status.remote, RequestsStatus::Closed);
}

#[test]
fn test_outgoing_set_remote_max_debt() {
    let local_public_key = pk(0xaa);
    let remote_public_key = pk(0xbb);
    let balance = 0;
    let mut mutual_credit = MutualCredit::new(&local_public_key, &remote_public_key, balance);

    assert_eq!(mutual_credit.state().balance.remote_max_debt, 0);
    apply_outgoing(&mut mutual_credit, &FriendTcOp::SetRemoteMaxDebt(20)).unwrap();
    assert_eq!(mutual_credit.state().balance.remote_max_debt, 20);
}

#[test]
fn test_max_debt_boundary() {
    let mut mutual_credit = MutualCredit::new(&pk(0xaa), &pk(0xbb), 0);

    // The largest representable ceiling is accepted ...
    apply_incoming(&mut mutual_credit, FriendTcOp::SetRemoteMaxDebt(MAX_FUNDER_DEBT)).unwrap();
    assert_eq!(mutual_credit.state().balance.local_max_debt, MAX_FUNDER_DEBT);

    // ... and one more is rejected.
    let res = apply_incoming(&mut mutual_credit, FriendTcOp::SetRemoteMaxDebt(MAX_FUNDER_DEBT + 1));
    assert_eq!(
        res.unwrap_err(),
        ProcessOperationError::RemoteMaxDebtTooLarge(MAX_FUNDER_DEBT + 1)
    );
    assert_eq!(mutual_credit.state().balance.local_max_debt, MAX_FUNDER_DEBT);
}

#[test]
fn test_request_response_collect_send_funds() {
    let local_public_key = pk(0xaa);
    let remote_public_key = pk(0xbb);
    let balance = 0;
    let mut mutual_credit = MutualCredit::new(&local_public_key, &remote_public_key, balance);

    // -----[SetRemoteMaxDebt]------
    // Make enough trust from remote side, so that we will be able to send
    // credits:
    apply_incoming(&mut mutual_credit, FriendTcOp::SetRemoteMaxDebt(100)).unwrap();

    // -----[EnableRequests]--------
    // Remote side should open its requests gate:
    apply_incoming(&mut mutual_credit, FriendTcOp::EnableRequests).unwrap();

    // -----[RequestSendFunds]--------
    let private_key_c = PrivateKey::from_bytes(vec![1u8; 32]);
    let public_key_c = derive_public_key(&private_key_c);

    let request_id = Uid::from_bytes(vec![3u8; 16]);
    let route = FriendsRoute {
        public_keys: vec![pk(0xaa), pk(0xbb), PublicKey::from_bytes(public_key_c.bytes.clone())],
    };
    let invoice_id = InvoiceId::from_bytes(vec![0u8; 32]);
    let src_plain_lock = PlainLock::from_bytes(vec![1u8; 32]);

    let request_send_funds = RequestSendFundsOp {
        request_id: Uid::from_bytes(request_id.bytes.clone()),
        currency: currency_fst(),
        src_hashed_lock: src_plain_lock.hash_lock(),
        route,
        dest_payment: 10,
        total_dest_payment: 10,
        invoice_id,
        left_fees: 5,
    };

    let pending_transaction = create_pending_transaction(&request_send_funds);
    apply_outgoing(&mut mutual_credit, &FriendTcOp::RequestSendFunds(request_send_funds)).unwrap();

    assert_eq!(mutual_credit.state().balance.balance, 0);
    assert_eq!(mutual_credit.state().balance.local_max_debt, 100);
    assert_eq!(mutual_credit.state().balance.remote_max_debt, 0);
    assert_eq!(mutual_credit.state().balance.local_pending_debt, 10 + 5);
    assert_eq!(mutual_credit.state().balance.remote_pending_debt, 0);
    check_debt_limits(&mutual_credit);

    // -----[ResponseSendFunds]--------
    let rand_nonce = RandValue::from_bytes(vec![5u8; 16]);
    let dest_plain_lock = PlainLock::from_bytes(vec![2u8; 32]);

    let mut response_send_funds = ResponseSendFundsOp {
        request_id: Uid::from_bytes(request_id.bytes.clone()),
        dest_hashed_lock: dest_plain_lock.hash_lock(),
        rand_nonce,
        signature: Signature::from_bytes(vec![0u8; 64]),
    };

    let sign_buffer_bytes =
        create_response_signature_buffer(&response_send_funds, &pending_transaction);
    response_send_funds.signature = sign_buffer(&sign_buffer_bytes, &private_key_c);

    apply_incoming(&mut mutual_credit, FriendTcOp::ResponseSendFunds(response_send_funds))
        .unwrap();

    // We expect that no changes to balance happened yet:
    assert_eq!(mutual_credit.state().balance.balance, 0);
    assert_eq!(mutual_credit.state().balance.local_max_debt, 100);
    assert_eq!(mutual_credit.state().balance.remote_max_debt, 0);
    assert_eq!(mutual_credit.state().balance.local_pending_debt, 10 + 5);
    assert_eq!(mutual_credit.state().balance.remote_pending_debt, 0);
    check_debt_limits(&mutual_credit);

    // -----[CollectSendFunds]--------
    let collect_send_funds = CollectSendFundsOp {
        request_id,
        src_plain_lock,
        dest_plain_lock,
    };

    apply_incoming(&mut mutual_credit, FriendTcOp::CollectSendFunds(collect_send_funds)).unwrap();

    assert_eq!(mutual_credit.state().balance.balance, -15);
    assert_eq!(mutual_credit.state().balance.local_max_debt, 100);
    assert_eq!(mutual_credit.state().balance.remote_max_debt, 0);
    assert_eq!(mutual_credit.state().balance.local_pending_debt, 0);
    assert_eq!(mutual_credit.state().balance.remote_pending_debt, 0);
    check_debt_limits(&mutual_credit);
}

#[test]
fn test_request_cancel_send_funds() {
    let private_key_b = PrivateKey::from_bytes(vec![1u8; 32]);
    let public_key_b = derive_public_key(&private_key_b);

    let local_public_key = pk(0xaa);
    let remote_public_key = PublicKey::from_bytes(public_key_b.bytes.clone());
    let balance = 0;
    let mut mutual_credit = MutualCredit::new(&local_public_key, &remote_public_key, balance);

    apply_incoming(&mut mutual_credit, FriendTcOp::SetRemoteMaxDebt(100)).unwrap();
    apply_incoming(&mut mutual_credit, FriendTcOp::EnableRequests).unwrap();

    let request_id = Uid::from_bytes(vec![3u8; 16]);
    let route = FriendsRoute {
        public_keys: vec![pk(0xaa), PublicKey::from_bytes(public_key_b.bytes.clone()), pk(0xcc)],
    };
    let invoice_id = InvoiceId::from_bytes(vec![0u8; 32]);
    let src_plain_lock = PlainLock::from_bytes(vec![1u8; 32]);

    let request_send_funds = RequestSendFundsOp {
        request_id: Uid::from_bytes(request_id.bytes.clone()),
        currency: currency_fst(),
        src_hashed_lock: src_plain_lock.hash_lock(),
        route,
        dest_payment: 10,
        total_dest_payment: 10,
        invoice_id,
        left_fees: 5,
    };

    apply_outgoing(&mut mutual_credit, &FriendTcOp::RequestSendFunds(request_send_funds)).unwrap();

    assert_eq!(mutual_credit.state().balance.balance, 0);
    assert_eq!(mutual_credit.state().balance.local_max_debt, 100);
    assert_eq!(mutual_credit.state().balance.remote_max_debt, 0);
    assert_eq!(mutual_credit.state().balance.local_pending_debt, 10 + 5);
    assert_eq!(mutual_credit.state().balance.remote_pending_debt, 0);

    // -----[CancelSendFunds]--------
    let cancel_send_funds = CancelSendFundsOp { request_id };

    apply_incoming(&mut mutual_credit, FriendTcOp::CancelSendFunds(cancel_send_funds)).unwrap();

    assert_eq!(mutual_credit.state().balance.balance, 0);
    assert_eq!(mutual_credit.state().balance.local_max_debt, 100);
    assert_eq!(mutual_credit.state().balance.remote_max_debt, 0);
    assert_eq!(mutual_credit.state().balance.local_pending_debt, 0);
    assert_eq!(mutual_credit.state().balance.remote_pending_debt, 0);
    check_debt_limits(&mutual_credit);
}

#[test]
fn test_request_response_cancel_send_funds() {
    let local_public_key = pk(0xaa);
    let remote_public_key = pk(0xbb);
    let balance = 0;
    let mut mutual_credit = MutualCredit::new(&local_public_key, &remote_public_key, balance);

    apply_incoming(&mut mutual_credit, FriendTcOp::SetRemoteMaxDebt(100)).unwrap();
    apply_incoming(&mut mutual_credit, FriendTcOp::EnableRequests).unwrap();

    let private_key_c = PrivateKey::from_bytes(vec![1u8; 32]);
    let public_key_c = derive_public_key(&private_key_c);

    let request_id = Uid::from_bytes(vec![3u8; 16]);
    let route = FriendsRoute {
        public_keys: vec![pk(0xaa), pk(0xbb), PublicKey::from_bytes(public_key_c.bytes.clone())],
    };
    let invoice_id = InvoiceId::from_bytes(vec![0u8; 32]);
    let src_plain_lock = PlainLock::from_bytes(vec![1u8; 32]);

    let request_send_funds = RequestSendFundsOp {
        request_id: Uid::from_bytes(request_id.bytes.clone()),
        currency: currency_fst(),
        src_hashed_lock: src_plain_lock.hash_lock(),
        route,
        dest_payment: 10,
        total_dest_payment: 10,
        invoice_id,
        left_fees: 5,
    };

    let pending_transaction = create_pending_transaction(&request_send_funds);
    apply_outgoing(&mut mutual_credit, &FriendTcOp::RequestSendFunds(request_send_funds)).unwrap();

    assert_eq!(mutual_credit.state().balance.balance, 0);
    assert_eq!(mutual_credit.state().balance.local_max_debt, 100);
    assert_eq!(mutual_credit.state().balance.remote_max_debt, 0);
    assert_eq!(mutual_credit.state().balance.local_pending_debt, 10 + 5);
    assert_eq!(mutual_credit.state().balance.remote_pending_debt, 0);

    // -----[ResponseSendFunds]--------
    let rand_nonce = RandValue::from_bytes(vec![5u8; 16]);
    let dest_plain_lock = PlainLock::from_bytes(vec![2u8; 32]);

    let mut response_send_funds = ResponseSendFundsOp {
        request_id: Uid::from_bytes(request_id.bytes.clone()),
        dest_hashed_lock: dest_plain_lock.hash_lock(),
        rand_nonce,
        signature: Signature::from_bytes(vec![0u8; 64]),
    };

    let sign_buffer_bytes =
        create_response_signature_buffer(&response_send_funds, &pending_transaction);
    response_send_funds.signature = sign_buffer(&sign_buffer_bytes, &private_key_c);

    apply_incoming(&mut mutual_credit, FriendTcOp::ResponseSendFunds(response_send_funds))
        .unwrap();

    // We expect that no changes to balance happened yet:
    assert_eq!(mutual_credit.state().balance.balance, 0);
    assert_eq!(mutual_credit.state().balance.local_pending_debt, 10 + 5);

    // -----[CancelSendFunds]--------
    let cancel_send_funds = CancelSendFundsOp { request_id };

    apply_incoming(&mut mutual_credit, FriendTcOp::CancelSendFunds(cancel_send_funds)).unwrap();

    assert_eq!(mutual_credit.state().balance.balance, 0);
    assert_eq!(mutual_credit.state().balance.local_max_debt, 100);
    assert_eq!(mutual_credit.state().balance.remote_max_debt, 0);
    assert_eq!(mutual_credit.state().balance.local_pending_debt, 0);
    assert_eq!(mutual_credit.state().balance.remote_pending_debt, 0);
}

/// Replaying the mutation log of a unit from its initial state rebuilds
/// the unit's in-memory state.
#[test]
fn test_mutation_log_replay() {
    let mut unit = MutualCredit::new(&pk(0xaa), &pk(0xbb), 0);
    let mut replayed = MutualCredit::new(&pk(0xaa), &pk(0xbb), 0);
    let mut log: Vec<McMutation> = Vec::new();

    let out = apply_incoming(&mut unit, FriendTcOp::SetRemoteMaxDebt(77)).unwrap();
    log.extend(out.mc_mutations);
    let out = apply_incoming(&mut unit, FriendTcOp::EnableRequests).unwrap();
    log.extend(out.mc_mutations);

    for mutation in &log {
        replayed.mutate(mutation);
    }
    assert_eq!(replayed.state().balance, unit.state().balance);
    assert_eq!(replayed.state().requests_status, unit.state().requests_status);
}

/// A mirrored pair of units: an exchanged operation leaves the two
/// balances exact negations of one another.
#[test]
fn test_balances_are_negations() {
    // a is the sender's unit, b the receiver's mirror image.
    let private_key_b = PrivateKey::from_bytes(vec![9u8; 32]);
    let public_key_b = derive_public_key(&private_key_b);
    let mut a = MutualCredit::new(&pk(0xaa), &public_key_b, 0);
    let mut b = MutualCredit::new(&public_key_b, &pk(0xaa), 0);

    // The peer grants a a ceiling; a's local ceiling mirrors b's remote one.
    apply_incoming(&mut a, FriendTcOp::SetRemoteMaxDebt(100)).unwrap();
    apply_outgoing(&mut b, &FriendTcOp::SetRemoteMaxDebt(100)).unwrap();
    apply_incoming(&mut a, FriendTcOp::EnableRequests).unwrap();
    apply_outgoing(&mut b, &FriendTcOp::EnableRequests).unwrap();

    let src_plain_lock = PlainLock::from_bytes(vec![1u8; 32]);
    let request = RequestSendFundsOp {
        request_id: Uid::from_bytes(vec![3u8; 16]),
        currency: currency_fst(),
        src_hashed_lock: src_plain_lock.hash_lock(),
        route: FriendsRoute {
            public_keys: vec![pk(0xaa), PublicKey::from_bytes(public_key_b.bytes.clone())],
        },
        dest_payment: 8,
        total_dest_payment: 8,
        invoice_id: InvoiceId::from_bytes(vec![0u8; 32]),
        left_fees: 0,
    };
    let pending = create_pending_transaction(&request);

    // The route is [a, b]; a queues the request as outgoing, b processes
    // the same operation as incoming.
    apply_outgoing(&mut a, &FriendTcOp::RequestSendFunds(request.clone())).unwrap();
    apply_incoming(&mut b, FriendTcOp::RequestSendFunds(request)).unwrap();
    assert_eq!(a.state().balance.balance, -b.state().balance.balance);
    assert_eq!(a.state().balance.local_pending_debt, b.state().balance.remote_pending_debt);

    // b responds and a collects; the settled balances are negations.
    let dest_plain_lock = PlainLock::from_bytes(vec![2u8; 32]);
    let mut response = ResponseSendFundsOp {
        request_id: Uid::from_bytes(vec![3u8; 16]),
        dest_hashed_lock: dest_plain_lock.hash_lock(),
        rand_nonce: RandValue::from_bytes(vec![5u8; 16]),
        signature: Signature::from_bytes(vec![0u8; 64]),
    };
    let buffer = create_response_signature_buffer(&response, &pending);
    response.signature = sign_buffer(&buffer, &private_key_b);
    apply_outgoing(&mut b, &FriendTcOp::ResponseSendFunds(response.clone())).unwrap();
    apply_incoming(&mut a, FriendTcOp::ResponseSendFunds(response)).unwrap();

    let collect = CollectSendFundsOp {
        request_id: Uid::from_bytes(vec![3u8; 16]),
        src_plain_lock: PlainLock::from_bytes(vec![1u8; 32]),
        dest_plain_lock: PlainLock::from_bytes(vec![2u8; 32]),
    };
    apply_outgoing(&mut b, &FriendTcOp::CollectSendFunds(collect.clone())).unwrap();
    apply_incoming(&mut a, FriendTcOp::CollectSendFunds(collect)).unwrap();

    assert_eq!(a.state().balance.balance, -8);
    assert_eq!(b.state().balance.balance, 8);
    assert_eq!(a.state().balance.balance, -b.state().balance.balance);
    check_debt_limits(&a);
    check_debt_limits(&b);
}
