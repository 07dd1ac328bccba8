//! Cancellation sweeps: failing an in-flight request when its friend is
//! disabled, and draining a friend's user queue.

use offst::canceler::{
    CurrencyChoice, cancel_local_pending_transactions, cancel_pending_requests,
    cancel_pending_user_requests, find_request_origin, remove_transaction, reply_with_cancel,
};
use offst::crypto::{Currency, InvoiceId, PaymentId, PlainLock, PublicKey, Uid};
use offst::friend::{BackwardsOp, ChannelStatus, FriendMutation, FriendState};
use offst::messages::{AddFriend, FriendTcOp, FriendsRoute, RequestResult, RequestSendFundsOp};
use offst::mutual_credit::{OutgoingMc, process_operation};
use offst::state::{FunderMutation, FunderState, OpenTransaction, Payment};

fn pk(byte: u8) -> PublicKey {
    PublicKey::from_bytes(vec![byte; 32])
}

fn currency(name: &str) -> Currency {
    Currency::from_bytes(name.as_bytes().to_vec())
}

fn request(rid: u8, route: Vec<PublicKey>, dest_payment: u128) -> RequestSendFundsOp {
    RequestSendFundsOp {
        request_id: Uid::from_bytes(vec![rid; 16]),
        currency: currency("FST"),
        src_hashed_lock: PlainLock::from_bytes(vec![1u8; 32]).hash_lock(),
        route: FriendsRoute { public_keys: route },
        dest_payment,
        total_dest_payment: dest_payment,
        invoice_id: InvoiceId::from_bytes(vec![0u8; 32]),
        left_fees: 0,
    }
}

/// Put an outgoing request into a friend's mutual-credit unit, as if it
/// had already been sent inside a move token.
fn install_local_pending_request(friend: &mut FriendState, rid: u8, dest_payment: u128) {
    let cc = match &mut friend.channel_status {
        ChannelStatus::Consistent(cc) => cc,
        ChannelStatus::Inconsistent(_) => panic!("expected a consistent channel"),
    };
    let unit = &mut cc.token_channel.token_channel;
    // The peer grants us a ceiling and opens its gate:
    process_operation(unit, FriendTcOp::SetRemoteMaxDebt(100)).unwrap();
    process_operation(unit, FriendTcOp::EnableRequests).unwrap();
    let local_pk = PublicKey::from_bytes(unit.state().idents.local_public_key.bytes.clone());
    let remote_pk = PublicKey::from_bytes(unit.state().idents.remote_public_key.bytes.clone());
    let req = request(rid, vec![local_pk, remote_pk, pk(0xcc)], dest_payment);
    let mut outgoing = OutgoingMc::new(unit);
    let mutations = outgoing.queue_operation(&FriendTcOp::RequestSendFunds(req)).unwrap();
    for mutation in &mutations {
        unit.mutate(mutation);
    }
}

/// A friend is disabled while a request this node originated is still
/// pending on its channel: the sweep finds no upstream origin, surfaces a
/// failure, and cancels the payment's transaction.
#[test]
fn test_friend_disable_in_flight() {
    let pk_a = pk(0x0a);
    let pk_b = pk(0x0b);
    let mut state = FunderState::new(&pk_a);

    let mut friend_b = FriendState::new(&pk_a, &pk_b, Vec::new(), "b".to_string());
    install_local_pending_request(&mut friend_b, 0x07, 6);
    state.friends.push((pk(0x0b), friend_b));

    let payment_id = PaymentId::from_bytes(vec![4u8; 16]);
    state.payments.push((PaymentId::from_bytes(vec![4u8; 16]), Payment::InProgress(1)));
    state.open_transactions.push((
        Uid::from_bytes(vec![0x07; 16]),
        OpenTransaction { payment_id },
    ));

    // No other friend holds this request, so this node is its origin.
    assert!(find_request_origin(&state, &Uid::from_bytes(vec![0x07; 16])).is_none());

    let acks = vec![Uid::from_bytes(vec![0x99; 16])];
    let results = cancel_local_pending_transactions(&mut state, &pk(0x0b), &currency("FST"), &acks);

    assert_eq!(results.len(), 1);
    assert_eq!(results[0].request_id, Uid::from_bytes(vec![0x07; 16]));
    assert!(matches!(results[0].result, RequestResult::Failure));

    // The transaction is closed and its payment cancelled under the
    // supplied acknowledgement id.
    assert!(state.open_transactions.is_empty());
    assert_eq!(state.payments.len(), 1);
    match &state.payments[0].1 {
        Payment::Canceled(ack) => assert_eq!(*ack, Uid::from_bytes(vec![0x99; 16])),
        other => panic!("expected a cancelled payment, got {:?}", other),
    }
}

/// Draining a friend's queue of user requests fails each of them toward
/// the application and empties the queue.
#[test]
fn test_cancel_pending_user_requests() {
    let pk_a = pk(0x0a);
    let pk_b = pk(0x0b);
    let mut state = FunderState::new(&pk_a);
    let mut friend_b = FriendState::new(&pk_a, &pk_b, Vec::new(), "b".to_string());
    friend_b.mutate(&FriendMutation::PushBackPendingUserRequest(
        currency("FST"),
        request(0x11, vec![pk(0x0a), pk(0x0b)], 3),
    ));
    friend_b.mutate(&FriendMutation::PushBackPendingUserRequest(
        currency("FST"),
        request(0x12, vec![pk(0x0a), pk(0x0b)], 4),
    ));
    state.friends.push((pk(0x0b), friend_b));

    for rid in [0x11u8, 0x12] {
        state.payments.push((PaymentId::from_bytes(vec![rid; 16]), Payment::InProgress(1)));
        state.open_transactions.push((
            Uid::from_bytes(vec![rid; 16]),
            OpenTransaction { payment_id: PaymentId::from_bytes(vec![rid; 16]) },
        ));
    }

    let acks = vec![Uid::from_bytes(vec![0x91; 16]), Uid::from_bytes(vec![0x92; 16])];
    let results = cancel_pending_user_requests(&mut state, &pk(0x0b), &acks);

    assert_eq!(results.len(), 2);
    assert_eq!(results[0].request_id, Uid::from_bytes(vec![0x11; 16]));
    assert_eq!(results[1].request_id, Uid::from_bytes(vec![0x12; 16]));
    assert!(state.open_transactions.is_empty());
    match &state.friends[0].1.channel_status {
        ChannelStatus::Consistent(cc) => assert!(cc.pending_user_requests.is_empty()),
        ChannelStatus::Inconsistent(_) => panic!("expected a consistent channel"),
    }
}

/// Forwarded requests with an upstream origin are cancelled toward that
/// origin: the origin friend's backwards queue receives the cancel.
#[test]
fn test_cancel_pending_requests_with_origin() {
    let pk_a = pk(0x0a);
    let pk_b = pk(0x0b);
    let pk_c = pk(0x0c);
    let mut state = FunderState::new(&pk_a);

    // Friend c forwarded a request to us; it sits in c's unit as a
    // peer-opened pending transaction, so c is the request's origin.
    let mut friend_c = FriendState::new(&pk_a, &pk_c, Vec::new(), "c".to_string());
    {
        let cc = match &mut friend_c.channel_status {
            ChannelStatus::Consistent(cc) => cc,
            ChannelStatus::Inconsistent(_) => panic!("expected a consistent channel"),
        };
        let unit = &mut cc.token_channel.token_channel;
        let mut outgoing = OutgoingMc::new(unit);
        let mutations = outgoing.queue_operation(&FriendTcOp::SetRemoteMaxDebt(100)).unwrap();
        for mutation in &mutations {
            unit.mutate(mutation);
        }
        let mutations = outgoing.queue_operation(&FriendTcOp::EnableRequests).unwrap();
        for mutation in &mutations {
            unit.mutate(mutation);
        }
        let req = request(0x21, vec![pk(0x0c), pk(0x0a), pk(0x0b)], 5);
        process_operation(unit, FriendTcOp::RequestSendFunds(req)).unwrap();
    }
    state.friends.push((pk(0x0c), friend_c));

    // The same request waits in b's forwarded queue.
    let mut friend_b = FriendState::new(&pk_a, &pk_b, Vec::new(), "b".to_string());
    friend_b.mutate(&FriendMutation::PushBackPendingRequest(
        currency("FST"),
        request(0x21, vec![pk(0x0c), pk(0x0a), pk(0x0b)], 5),
    ));
    state.friends.push((pk(0x0b), friend_b));

    let origin = find_request_origin(&state, &Uid::from_bytes(vec![0x21; 16]));
    assert_eq!(origin.unwrap(), pk(0x0c));

    let results =
        cancel_pending_requests(&mut state, &pk(0x0b), &CurrencyChoice::All);
    // The origin is a friend, so nothing is surfaced to the application.
    assert!(results.is_empty());

    // b's forwarded queue is empty; c's backwards queue got the cancel.
    match &state.friends[1].1.channel_status {
        ChannelStatus::Consistent(cc) => assert!(cc.pending_requests.is_empty()),
        ChannelStatus::Inconsistent(_) => panic!("expected a consistent channel"),
    }
    match &state.friends[0].1.channel_status {
        ChannelStatus::Consistent(cc) => {
            assert_eq!(cc.pending_backwards_ops.len(), 1);
            match &cc.pending_backwards_ops[0].1 {
                BackwardsOp::Cancel(cancel) => {
                    assert_eq!(cancel.request_id, Uid::from_bytes(vec![0x21; 16]));
                },
                other => panic!("expected a cancel, got {:?}", other),
            }
        },
        ChannelStatus::Inconsistent(_) => panic!("expected a consistent channel"),
    }
}

/// Replying to one request queues exactly one cancel on the friend's
/// backwards queue; closing a transaction decreases its payment's count.
#[test]
fn test_reply_and_remove_transaction() {
    let pk_a = pk(0x0a);
    let pk_b = pk(0x0b);
    let mut state = FunderState::new(&pk_a);
    state.friends.push((pk(0x0b), FriendState::new(&pk_a, &pk_b, Vec::new(), "b".to_string())));

    assert!(reply_with_cancel(&mut state, &pk(0x0b), &currency("FST"), &Uid::from_bytes(vec![5u8; 16])));
    // An unknown friend changes nothing.
    assert!(!reply_with_cancel(&mut state, &pk(0x0f), &currency("FST"), &Uid::from_bytes(vec![5u8; 16])));
    match &state.friends[0].1.channel_status {
        ChannelStatus::Consistent(cc) => assert_eq!(cc.pending_backwards_ops.len(), 1),
        ChannelStatus::Inconsistent(_) => panic!("expected a consistent channel"),
    }

    let payment_id = PaymentId::from_bytes(vec![4u8; 16]);
    state.payments.push((PaymentId::from_bytes(vec![4u8; 16]), Payment::InProgress(2)));
    state.open_transactions.push((
        Uid::from_bytes(vec![6u8; 16]),
        OpenTransaction { payment_id },
    ));
    assert!(remove_transaction(
        &mut state,
        Uid::from_bytes(vec![0x90; 16]),
        &Uid::from_bytes(vec![6u8; 16]),
    ));
    assert!(state.open_transactions.is_empty());
    assert!(matches!(state.payments[0].1, Payment::InProgress(1)));

    // Removing it again changes nothing.
    assert!(!remove_transaction(
        &mut state,
        Uid::from_bytes(vec![0x90; 16]),
        &Uid::from_bytes(vec![6u8; 16]),
    ));
}

/// The funder state's own mutations: friends are added once, payments
/// are updated and removed by id.
#[test]
fn test_funder_state_mutations() {
    let pk_a = pk(0x0a);
    let mut state = FunderState::new(&pk_a);

    state.mutate(&FunderMutation::AddFriend(AddFriend {
        friend_public_key: pk(0x0b),
        relays: Vec::new(),
        name: "b".to_string(),
        balance: 3,
    }));
    assert_eq!(state.friends.len(), 1);
    match &state.friends[0].1.channel_status {
        ChannelStatus::Consistent(cc) => {
            assert_eq!(cc.token_channel.token_channel.state().balance.balance, 3);
        },
        ChannelStatus::Inconsistent(_) => panic!("expected a consistent channel"),
    }

    // Adding the same friend again changes nothing.
    state.mutate(&FunderMutation::AddFriend(AddFriend {
        friend_public_key: pk(0x0b),
        relays: Vec::new(),
        name: "other".to_string(),
        balance: 9,
    }));
    assert_eq!(state.friends.len(), 1);
    assert_eq!(state.friends[0].1.name, "b");

    state.mutate(&FunderMutation::UpdatePayment(
        PaymentId::from_bytes(vec![1u8; 16]),
        Payment::InProgress(2),
    ));
    assert_eq!(state.payments.len(), 1);
    state.mutate(&FunderMutation::RemovePayment(PaymentId::from_bytes(vec![1u8; 16])));
    assert!(state.payments.is_empty());

    state.mutate(&FunderMutation::RemoveFriend(pk(0x0b)));
    assert!(state.friends.is_empty());
}
