//! Receipts, commits and fee arithmetic: the signed-receipt round trip,
//! multi-route commit acceptance, and the forwarding rate formulas.

use offst::crypto::{
    Currency, HashResult, InvoiceId, PlainLock, PrivateKey, PublicKey, Uid, derive_public_key,
    sha_512_256, sign_buffer,
};
use offst::messages::{Commit, MultiCommit, Rate, Receipt};
use offst::verify::{
    create_commit_signature_buffer, create_receipt_signature_buffer, verify_multi_commit,
    verify_receipt,
};

fn currency(name: &str) -> Currency {
    Currency::from_bytes(name.as_bytes().to_vec())
}

fn make_receipt(seller_key: &PrivateKey) -> Receipt {
    let mut receipt = Receipt {
        response_hash: sha_512_256(&vec![1, 2, 3]),
        invoice_id: InvoiceId::from_bytes(vec![3u8; 32]),
        currency: currency("FST"),
        src_plain_lock: PlainLock::from_bytes(vec![1u8; 32]),
        dest_plain_lock: PlainLock::from_bytes(vec![2u8; 32]),
        dest_payment: 8,
        total_dest_payment: 8,
        signature: offst::crypto::Signature::from_bytes(vec![0u8; 64]),
    };
    let buffer = create_receipt_signature_buffer(&receipt);
    receipt.signature = sign_buffer(&buffer, seller_key);
    receipt
}

/// The seller publishes a hashed lock, signs the receipt; the buyer can
/// verify it against the seller's public key, and any tampering with the
/// amounts makes verification fail.
#[test]
fn test_signed_receipt_round_trip() {
    let seller_key = PrivateKey::from_bytes(vec![42u8; 32]);
    let seller_pk = derive_public_key(&seller_key);

    let receipt = make_receipt(&seller_key);
    assert!(verify_receipt(&receipt, &seller_pk));

    // Another key does not verify.
    let other_key = PrivateKey::from_bytes(vec![43u8; 32]);
    let other_pk = derive_public_key(&other_key);
    assert!(!verify_receipt(&receipt, &other_pk));

    // Flipping the total makes verification fail.
    let mut tampered = receipt.clone();
    tampered.total_dest_payment = 9;
    assert!(!verify_receipt(&tampered, &seller_pk));

    // So does flipping a lock.
    let mut tampered = receipt.clone();
    tampered.dest_plain_lock = PlainLock::from_bytes(vec![7u8; 32]);
    assert!(!verify_receipt(&tampered, &seller_pk));
}

fn make_commit(
    seller_key: &PrivateKey,
    invoice_id: &InvoiceId,
    cur: &Currency,
    total: u128,
    dest_payment: u128,
    tag: u8,
) -> Commit {
    let mut commit = Commit {
        response_hash: sha_512_256(&vec![tag]),
        dest_payment,
        src_plain_lock: PlainLock::from_bytes(vec![tag; 32]),
        dest_hashed_lock: PlainLock::from_bytes(vec![tag + 1; 32]).hash_lock(),
        signature: offst::crypto::Signature::from_bytes(vec![0u8; 64]),
    };
    let buffer = create_commit_signature_buffer(&commit, invoice_id, cur, total);
    commit.signature = sign_buffer(&buffer, seller_key);
    commit
}

/// Two routes of capacities 5 and 4 pay a total of 9: the seller accepts
/// only when both commits are present and their payments add up exactly.
#[test]
fn test_multi_commit_sum() {
    let seller_key = PrivateKey::from_bytes(vec![42u8; 32]);
    let seller_pk = derive_public_key(&seller_key);
    let invoice_id = InvoiceId::from_bytes(vec![3u8; 32]);
    let cur = currency("FST");

    let commit_a = make_commit(&seller_key, &invoice_id, &cur, 9, 5, 10);
    let commit_b = make_commit(&seller_key, &invoice_id, &cur, 9, 4, 20);

    let full = MultiCommit {
        invoice_id: InvoiceId::from_bytes(vec![3u8; 32]),
        currency: currency("FST"),
        total_dest_payment: 9,
        commits: vec![commit_a.clone(), commit_b.clone()],
    };
    assert!(verify_multi_commit(&full, &seller_pk));

    // Supplying only the first commit: the sum does not match.
    let partial = MultiCommit {
        invoice_id: InvoiceId::from_bytes(vec![3u8; 32]),
        currency: currency("FST"),
        total_dest_payment: 9,
        commits: vec![commit_a.clone()],
    };
    assert!(!verify_multi_commit(&partial, &seller_pk));

    // A bad signature is rejected even when the sum matches.
    let mut bad_commit = commit_b.clone();
    bad_commit.dest_payment = 4;
    bad_commit.signature = offst::crypto::Signature::from_bytes(vec![9u8; 64]);
    let bad = MultiCommit {
        invoice_id: InvoiceId::from_bytes(vec![3u8; 32]),
        currency: currency("FST"),
        total_dest_payment: 9,
        commits: vec![commit_a, bad_commit],
    };
    assert!(!verify_multi_commit(&bad, &seller_pk));
}

/// Exact values of the forwarding fee formula `(x * mul) / 2^32 + add`.
/// A rate of one whole unit per credit would need `mul = 2^32`, which the
/// 32 bit field cannot hold; the closest representable rate charges one
/// credit less on a `2^32` payment.
#[test]
fn test_rate_formulas() {
    let zero = Rate::new();
    assert_eq!(zero.calc_fee(12345), Some(0));

    // mul = 2^31 charges half the amount.
    let half = Rate { mul: 0x8000_0000, add: 0 };
    assert_eq!(half.calc_fee(8), Some(4));
    assert_eq!(half.calc_fee(9), Some(4));

    // A flat rate adds a constant.
    let flat = Rate { mul: 0, add: 5 };
    assert_eq!(flat.calc_fee(10), Some(5));

    // The largest representable mul on a 2^32 payment: one credit short
    // of the full amount.
    let near_full = Rate { mul: u32::MAX, add: 0 };
    assert_eq!(near_full.calc_fee(1u128 << 32), Some((1u128 << 32) - 1));

    // The steepest representable rate on a large payment, exactly.
    let steep = Rate { mul: u32::MAX, add: u32::MAX };
    let expected = (1u128 << 96) - (1u128 << 64) + (u32::MAX as u128);
    assert_eq!(steep.calc_fee(1u128 << 96), Some(expected));

    // max_payable solves x + fee(x) <= capacity.
    assert_eq!(half.max_payable(9), 6);
    let x = half.max_payable(9);
    assert!(x + half.calc_fee(x).unwrap() <= 9);
    assert_eq!(flat.max_payable(3), 0);
    assert_eq!(zero.max_payable(17), 17);
}

/// The digest primitive is deterministic and 32 bytes wide.
#[test]
fn test_digest_basics() {
    let a = sha_512_256(&vec![1, 2, 3]);
    let b = sha_512_256(&vec![1, 2, 3]);
    let c = sha_512_256(&vec![1, 2, 4]);
    assert_eq!(a.bytes.len(), 32);
    assert_eq!(a, b);
    assert_ne!(a, c);
    let _: &HashResult = &a;
}

/// Public keys derived from distinct private keys differ.
#[test]
fn test_identity_derivation() {
    let key_a = PrivateKey::from_bytes(vec![1u8; 32]);
    let key_b = PrivateKey::from_bytes(vec![2u8; 32]);
    let pk_a: PublicKey = derive_public_key(&key_a);
    let pk_b: PublicKey = derive_public_key(&key_b);
    assert_eq!(pk_a.bytes.len(), 32);
    assert_ne!(pk_a, pk_b);
    let again = derive_public_key(&key_a);
    assert_eq!(pk_a, again);
    // The public key is a derivation, not the seed handed back.
    assert_ne!(pk_a.bytes, key_a.bytes);
    let _ = Uid::from_bytes(vec![0u8; 16]);
}
