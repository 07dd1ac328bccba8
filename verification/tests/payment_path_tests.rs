//! Multi-hop payment scenarios over the mutual-credit units of a
//! three-node route: the happy path moves the destination amount across
//! both channels, and a hop without enough granted trust rejects the
//! request so that a cancel can travel back.

use offst::crypto::{
    Currency, InvoiceId, PlainLock, PrivateKey, PublicKey, RandValue, Signature, Uid,
    derive_public_key, sign_buffer,
};
use offst::messages::{
    CollectSendFundsOp, FriendTcOp, FriendsRoute, RequestSendFundsOp, ResponseSendFundsOp,
};
use offst::mutual_credit::{
    MutualCredit, OutgoingMc, ProcessOperationError, QueueOperationError,
    create_pending_transaction, process_operation,
};
use offst::signature_buff::create_response_signature_buffer;

fn pk(byte: u8) -> PublicKey {
    PublicKey::from_bytes(vec![byte; 32])
}

fn currency_fst() -> Currency {
    Currency::from_bytes(b"FST".to_vec())
}

fn apply_outgoing(unit: &mut MutualCredit, op: &FriendTcOp) -> Result<(), QueueOperationError> {
    let mut outgoing = OutgoingMc::new(unit);
    let mutations = outgoing.queue_operation(op)?;
    for mutation in &mutations {
        unit.mutate(mutation);
    }
    Ok(())
}

/// Open a channel pair for sending from the first peer to the second:
/// the receiver grants trust and opens its gate.
fn open_pair(sender_unit: &mut MutualCredit, receiver_unit: &mut MutualCredit, trust: u128) {
    process_operation(sender_unit, FriendTcOp::SetRemoteMaxDebt(trust)).unwrap();
    apply_outgoing(receiver_unit, &FriendTcOp::SetRemoteMaxDebt(trust)).unwrap();
    process_operation(sender_unit, FriendTcOp::EnableRequests).unwrap();
    apply_outgoing(receiver_unit, &FriendTcOp::EnableRequests).unwrap();
}

/// The happy path along a route of three nodes, with no fees: the
/// destination invoices 8 credits; after the request, the signed
/// response and the collect have travelled, each channel's balance has
/// moved by 8 in the destination's favour.
#[test]
fn test_three_node_payment_happy_path() {
    let key_c = PrivateKey::from_bytes(vec![0x0c; 32]);
    let pk_c = derive_public_key(&key_c);
    let pk_a = pk(0x0a);
    let pk_b = pk(0x0b);

    // The channel between a and b, seen from both ends, and likewise
    // between b and c.
    let mut ab = MutualCredit::new(&pk_a, &pk_b, 0);
    let mut ba = MutualCredit::new(&pk_b, &pk_a, 0);
    let mut bc = MutualCredit::new(&pk_b, &PublicKey::from_bytes(pk_c.bytes.clone()), 0);
    let mut cb = MutualCredit::new(&PublicKey::from_bytes(pk_c.bytes.clone()), &pk_b, 0);

    open_pair(&mut ab, &mut ba, 100);
    open_pair(&mut bc, &mut cb, 100);

    // c invoices 8 credits under invoice id 3; a opens payment 4 and
    // issues transaction 5 along the route a -> b -> c.
    let src_plain_lock = PlainLock::from_bytes(vec![0x04; 32]);
    let request = RequestSendFundsOp {
        request_id: Uid::from_bytes(vec![0x05; 16]),
        currency: currency_fst(),
        src_hashed_lock: src_plain_lock.hash_lock(),
        route: FriendsRoute {
            public_keys: vec![pk(0x0a), pk(0x0b), PublicKey::from_bytes(pk_c.bytes.clone())],
        },
        dest_payment: 8,
        total_dest_payment: 8,
        invoice_id: InvoiceId::from_bytes(vec![0x03; 32]),
        left_fees: 0,
    };
    let pending = create_pending_transaction(&request);

    // The request travels forward: a -> b on the first channel, then
    // b -> c on the second.
    apply_outgoing(&mut ab, &FriendTcOp::RequestSendFunds(request.clone())).unwrap();
    process_operation(&mut ba, FriendTcOp::RequestSendFunds(request.clone())).unwrap();
    apply_outgoing(&mut bc, &FriendTcOp::RequestSendFunds(request.clone())).unwrap();
    process_operation(&mut cb, FriendTcOp::RequestSendFunds(request)).unwrap();

    // c signs the response; it travels backward.
    let dest_plain_lock = PlainLock::from_bytes(vec![0x0d; 32]);
    let mut response = ResponseSendFundsOp {
        request_id: Uid::from_bytes(vec![0x05; 16]),
        dest_hashed_lock: dest_plain_lock.hash_lock(),
        rand_nonce: RandValue::from_bytes(vec![0x06; 16]),
        signature: Signature::from_bytes(vec![0u8; 64]),
    };
    let buffer = create_response_signature_buffer(&response, &pending);
    response.signature = sign_buffer(&buffer, &key_c);

    apply_outgoing(&mut cb, &FriendTcOp::ResponseSendFunds(response.clone())).unwrap();
    process_operation(&mut bc, FriendTcOp::ResponseSendFunds(response.clone())).unwrap();
    apply_outgoing(&mut ba, &FriendTcOp::ResponseSendFunds(response.clone())).unwrap();
    process_operation(&mut ab, FriendTcOp::ResponseSendFunds(response)).unwrap();

    // The collect reveals both plain locks and travels backward too,
    // settling each hop.
    let collect = CollectSendFundsOp {
        request_id: Uid::from_bytes(vec![0x05; 16]),
        src_plain_lock: PlainLock::from_bytes(vec![0x04; 32]),
        dest_plain_lock: PlainLock::from_bytes(vec![0x0d; 32]),
    };
    apply_outgoing(&mut cb, &FriendTcOp::CollectSendFunds(collect.clone())).unwrap();
    process_operation(&mut bc, FriendTcOp::CollectSendFunds(collect.clone())).unwrap();
    apply_outgoing(&mut ba, &FriendTcOp::CollectSendFunds(collect.clone())).unwrap();
    process_operation(&mut ab, FriendTcOp::CollectSendFunds(collect)).unwrap();

    // a owes b 8; b owes c 8. Each pair's views are exact negations.
    assert_eq!(ab.state().balance.balance, -8);
    assert_eq!(ba.state().balance.balance, 8);
    assert_eq!(bc.state().balance.balance, -8);
    assert_eq!(cb.state().balance.balance, 8);
    assert_eq!(ab.state().balance.local_pending_debt, 0);
    assert_eq!(ba.state().balance.remote_pending_debt, 0);
}

/// A hop without enough granted trust: the second channel only covers 5
/// credits, so forwarding a request for 6 is refused and the upstream
/// peer gets a cancel instead.
#[test]
fn test_cancel_on_missing_capacity() {
    let pk_a = pk(0x0a);
    let pk_b = pk(0x0b);
    let pk_c = pk(0x0c);

    let mut ab = MutualCredit::new(&pk_a, &pk_b, 0);
    let mut ba = MutualCredit::new(&pk_b, &pk_a, 0);
    let mut bc = MutualCredit::new(&pk_b, &pk_c, 0);
    let mut cb = MutualCredit::new(&pk_c, &pk_b, 0);

    open_pair(&mut ab, &mut ba, 100);
    // b may only run a debt of 5 toward c.
    open_pair(&mut bc, &mut cb, 5);

    let src_plain_lock = PlainLock::from_bytes(vec![0x04; 32]);
    let request = RequestSendFundsOp {
        request_id: Uid::from_bytes(vec![0x05; 16]),
        currency: currency_fst(),
        src_hashed_lock: src_plain_lock.hash_lock(),
        route: FriendsRoute { public_keys: vec![pk(0x0a), pk(0x0b), pk(0x0c)] },
        dest_payment: 6,
        total_dest_payment: 6,
        invoice_id: InvoiceId::from_bytes(vec![0x03; 32]),
        left_fees: 0,
    };

    // The first hop accepts the reservation.
    apply_outgoing(&mut ab, &FriendTcOp::RequestSendFunds(request.clone())).unwrap();
    process_operation(&mut ba, FriendTcOp::RequestSendFunds(request.clone())).unwrap();

    // The second hop refuses: 6 exceeds the granted trust of 5.
    let mut outgoing = OutgoingMc::new(&bc);
    let err = outgoing.queue_operation(&FriendTcOp::RequestSendFunds(request.clone())).unwrap_err();
    assert_eq!(err, QueueOperationError::InsufficientTrust);

    // b cancels the request toward a; the reservation is released and
    // all balances are back to zero with no pending debts.
    apply_outgoing(&mut ba, &FriendTcOp::CancelSendFunds(offst::messages::CancelSendFundsOp {
        request_id: Uid::from_bytes(vec![0x05; 16]),
    })).unwrap();
    process_operation(&mut ab, FriendTcOp::CancelSendFunds(offst::messages::CancelSendFundsOp {
        request_id: Uid::from_bytes(vec![0x05; 16]),
    })).unwrap();

    for unit in [&ab, &ba, &bc, &cb] {
        assert_eq!(unit.state().balance.balance, 0);
        assert_eq!(unit.state().balance.local_pending_debt, 0);
        assert_eq!(unit.state().balance.remote_pending_debt, 0);
    }

    // A duplicate request id on the same channel is also refused.
    apply_outgoing(&mut ab, &FriendTcOp::RequestSendFunds(request.clone())).unwrap();
    let mut outgoing = OutgoingMc::new(&ab);
    let err = outgoing.queue_operation(&FriendTcOp::RequestSendFunds(request)).unwrap_err();
    assert_eq!(err, QueueOperationError::RequestAlreadyExists);
}

/// An unknown or malformed request is rejected with its own error.
#[test]
fn test_request_error_variants() {
    let mut unit = MutualCredit::new(&pk(0x0a), &pk(0x0b), 0);
    process_operation(&mut unit, FriendTcOp::SetRemoteMaxDebt(100)).unwrap();

    // The peer has not opened its side yet.
    let src_plain_lock = PlainLock::from_bytes(vec![0x04; 32]);
    let request = RequestSendFundsOp {
        request_id: Uid::from_bytes(vec![0x05; 16]),
        currency: currency_fst(),
        src_hashed_lock: src_plain_lock.hash_lock(),
        route: FriendsRoute { public_keys: vec![pk(0x0a), pk(0x0b)] },
        dest_payment: 1,
        total_dest_payment: 1,
        invoice_id: InvoiceId::from_bytes(vec![0x03; 32]),
        left_fees: 0,
    };
    let mut outgoing = OutgoingMc::new(&unit);
    let err = outgoing.queue_operation(&FriendTcOp::RequestSendFunds(request)).unwrap_err();
    assert_eq!(err, QueueOperationError::RemoteRequestsClosed);

    // A route of a single node is refused before anything else.
    let bad_route = RequestSendFundsOp {
        request_id: Uid::from_bytes(vec![0x06; 16]),
        currency: currency_fst(),
        src_hashed_lock: PlainLock::from_bytes(vec![0x04; 32]).hash_lock(),
        route: FriendsRoute { public_keys: vec![pk(0x0a)] },
        dest_payment: 1,
        total_dest_payment: 1,
        invoice_id: InvoiceId::from_bytes(vec![0x03; 32]),
        left_fees: 0,
    };
    let mut outgoing = OutgoingMc::new(&unit);
    let err = outgoing.queue_operation(&FriendTcOp::RequestSendFunds(bad_route)).unwrap_err();
    assert_eq!(err, QueueOperationError::InvalidRoute);

    // Cancelling a request that was never made is refused.
    let err = process_operation(
        &mut unit,
        FriendTcOp::CancelSendFunds(offst::messages::CancelSendFundsOp {
            request_id: Uid::from_bytes(vec![0x07; 16]),
        }),
    )
    .unwrap_err();
    assert_eq!(err, ProcessOperationError::RequestDoesNotExist);
}
