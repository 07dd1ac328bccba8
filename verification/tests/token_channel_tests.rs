//! The token channel protocol: a full signed handoff between two peers,
//! idempotent duplicates, retransmission, and inconsistency with reset.

use offst::crypto::{PrivateKey, PublicKey, RandValue, derive_public_key};
use offst::funder::sign_move_token;
use offst::messages::{FriendTcOp, TokenInfo};
use offst::token_channel::{
    DirectionalTokenChannel, MoveTokenDirection, ReceiveMoveTokenError, ReceiveMoveTokenOutput,
};

struct Peers {
    sender: DirectionalTokenChannel,
    receiver: DirectionalTokenChannel,
    sender_key: PrivateKey,
}

/// Two fresh channels for the same pair of peers; the one whose turn it
/// is to send first comes back as `sender`.
fn fresh_peers() -> Peers {
    let key_a = PrivateKey::from_bytes(vec![1u8; 32]);
    let key_b = PrivateKey::from_bytes(vec![2u8; 32]);
    let pk_a = derive_public_key(&key_a);
    let pk_b = derive_public_key(&key_b);

    let a = DirectionalTokenChannel::new(&pk_a, &pk_b);
    let b = DirectionalTokenChannel::new(&pk_b, &pk_a);

    // Both peers derive the same seed token.
    assert_eq!(a.new_token, b.new_token);

    // Exactly one side holds the token and sends first.
    match (&a.direction, &b.direction) {
        (MoveTokenDirection::Incoming, MoveTokenDirection::Outgoing(_)) => Peers {
            sender: a,
            receiver: b,
            sender_key: key_a,
        },
        (MoveTokenDirection::Outgoing(_), MoveTokenDirection::Incoming) => Peers {
            sender: b,
            receiver: a,
            sender_key: key_b,
        },
        _ => panic!("exactly one side must hold the token"),
    }
}

/// A full handoff: queue an operation, seal, sign, commit, deliver.
/// Afterwards the delivered token, received a second time, is a no-op.
#[test]
fn test_move_token_handoff_and_duplicate() {
    let Peers { mut sender, mut receiver, sender_key } = fresh_peers();

    let mut handle = sender.begin_outgoing_move_token().unwrap();
    handle.queue_operation(&FriendTcOp::EnableRequests).unwrap();
    handle.queue_operation(&FriendTcOp::SetRemoteMaxDebt(50)).unwrap();
    assert!(!handle.is_empty());

    let unsigned = sender.create_outgoing_move_token(
        &handle,
        None,
        RandValue::from_bytes(vec![7u8; 16]),
    );
    let move_token = sign_move_token(unsigned, &sender_key);
    sender.commit_outgoing_move_token(handle, move_token.clone());
    assert_eq!(sender.move_token_counter, 1);
    assert!(matches!(sender.direction, MoveTokenDirection::Outgoing(_)));

    // The receiver accepts the expected next token and applies its
    // operations.
    match receiver.receive_move_token(move_token.clone()).unwrap() {
        ReceiveMoveTokenOutput::ProcessOpsListOutput(outputs) => {
            assert_eq!(outputs.len(), 2);
        },
        _ => panic!("expected the operation batch to be processed"),
    }
    assert_eq!(receiver.move_token_counter, 1);
    assert!(matches!(receiver.direction, MoveTokenDirection::Incoming));
    // The sender enabled its gate and granted a ceiling; the receiver
    // sees the mirror image.
    assert_eq!(receiver.get_token_channel().state().balance.local_max_debt, 50);

    // Receiving the very same token again is a no-op.
    match receiver.receive_move_token(move_token.clone()).unwrap() {
        ReceiveMoveTokenOutput::Duplicate => {},
        _ => panic!("expected a duplicate"),
    }
    assert_eq!(receiver.move_token_counter, 1);

    // The sender can always reproduce its pending outgoing token.
    let pending = sender.get_outgoing_move_token().unwrap();
    assert_eq!(pending.new_token, move_token.new_token);
}

/// A token whose summary hash does not match the state it produces turns
/// the channel inconsistent; reset terms rebuild it.
#[test]
fn test_inconsistency_and_reset() {
    let Peers { sender, receiver, sender_key } = fresh_peers();

    // Forge a move token whose info hash summarizes a wrong balance.
    let wrong_info = TokenInfo {
        local_public_key: PublicKey::from_bytes(
            receiver.get_token_channel().state().idents.remote_public_key.bytes.clone(),
        ),
        remote_public_key: PublicKey::from_bytes(
            receiver.get_token_channel().state().idents.local_public_key.bytes.clone(),
        ),
        inconsistency_counter: 0,
        move_token_counter: 1,
        balance: 99,
        local_pending_debt: 0,
        remote_pending_debt: 0,
    };
    let unsigned = offst::funder::create_unsigned_move_token(
        Vec::new(),
        None,
        &wrong_info,
        offst::crypto::Signature::from_bytes(sender.new_token.bytes.clone()),
        RandValue::from_bytes(vec![7u8; 16]),
    );
    let forged = sign_move_token(unsigned, &sender_key);

    match receiver.simulate_receive_move_token(forged) {
        Err(ReceiveMoveTokenError::InvalidTokenInfo) => {},
        other => panic!("expected an info hash mismatch, got {:?}", other),
    }

    // Both sides derive their reset terms; the receiver accepts the
    // sender's terms and rebuilds, resuming with direction incoming.
    let terms_token_sender = sender.calc_channel_reset_token();
    let terms_token_receiver = receiver.calc_channel_reset_token();
    // Same state on both sides, so the derived reset tokens agree on the
    // committed balance (zero) even though they belong to different ends.
    assert_eq!(sender.balance_for_reset(), 0);
    assert_eq!(receiver.balance_for_reset(), 0);

    let local_pk = PublicKey::from_bytes(
        receiver.get_token_channel().state().idents.local_public_key.bytes.clone(),
    );
    let remote_pk = PublicKey::from_bytes(
        receiver.get_token_channel().state().idents.remote_public_key.bytes.clone(),
    );
    let rebuilt = DirectionalTokenChannel::new_from_reset(
        &local_pk,
        &remote_pk,
        &terms_token_sender,
        0,
        1,
    );
    assert!(matches!(rebuilt.direction, MoveTokenDirection::Incoming));
    assert_eq!(rebuilt.inconsistency_counter, 1);
    assert_eq!(rebuilt.move_token_counter, 0);
    assert_eq!(rebuilt.get_token_channel().state().balance.balance, 0);
    assert_eq!(rebuilt.new_token, terms_token_sender);
    assert_ne!(terms_token_sender.bytes.len(), 0);
    let _ = terms_token_receiver;
}

/// A token that continues neither chain end is a chain inconsistency; an
/// unsigned or foreign-signed token is rejected outright.
#[test]
fn test_chain_and_signature_rejection() {
    let Peers { sender, mut receiver, sender_key: _ } = fresh_peers();

    // A token signed by a stranger fails the signature check.
    let stranger_key = PrivateKey::from_bytes(vec![9u8; 32]);
    let info = TokenInfo {
        local_public_key: PublicKey::from_bytes(
            sender.get_token_channel().state().idents.local_public_key.bytes.clone(),
        ),
        remote_public_key: PublicKey::from_bytes(
            sender.get_token_channel().state().idents.remote_public_key.bytes.clone(),
        ),
        inconsistency_counter: 0,
        move_token_counter: 1,
        balance: 0,
        local_pending_debt: 0,
        remote_pending_debt: 0,
    };
    let unsigned = offst::funder::create_unsigned_move_token(
        Vec::new(),
        None,
        &info,
        offst::crypto::Signature::from_bytes(sender.new_token.bytes.clone()),
        RandValue::from_bytes(vec![7u8; 16]),
    );
    let foreign = sign_move_token(unsigned, &stranger_key);
    match receiver.receive_move_token(foreign) {
        Err(ReceiveMoveTokenError::InvalidSignature) => {},
        other => panic!("expected a signature rejection, got {:?}", other),
    }
}
