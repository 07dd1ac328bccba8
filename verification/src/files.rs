//! Plain-value images of the small files the tooling around a node reads
//! and writes: tickets, invoices, commits, receipts and tokens. They hold
//! what the formats carry; the encoding itself lives outside the library.

use vstd::prelude::*;

use crate::crypto::{
    Currency, HashResult, HashedLock, InvoiceId, NetAddress, PaymentId, PlainLock, PrivateKey,
    PublicKey, RandValue, Signature,
};
use crate::messages::TokenInfo;
use crate::report::AppPermissions;

verus! {

/// An application's public key and what it is allowed to do.
#[derive(Debug)]
pub struct TrustedAppFile {
    pub public_key: PublicKey,
    pub permissions: AppPermissions,
}

/// A relay address as carried in ticket files.
#[derive(Debug)]
pub struct RelayAddressFile {
    pub public_key: PublicKey,
    pub address: NetAddress,
}

/// A friend's public key and the relays it can be reached through.
#[derive(Debug)]
pub struct FriendAddressFile {
    pub public_key: PublicKey,
    pub relays: Vec<RelayAddressFile>,
}

/// A friend entry as carried in ticket files.
#[derive(Debug)]
pub struct FriendFile {
    pub public_key: PublicKey,
    pub relays: Vec<RelayAddressFile>,
}

/// An identity: a private key.
#[derive(Debug)]
pub struct IdentityFile {
    pub private_key: PrivateKey,
}

/// An index server's public key and address.
#[derive(Debug)]
pub struct IndexServerFile {
    pub public_key: PublicKey,
    pub address: NetAddress,
}

/// A node's public key and address.
#[derive(Debug)]
pub struct NodeAddressFile {
    pub public_key: PublicKey,
    pub address: NetAddress,
}

/// An invoice a seller hands out.
#[derive(Debug)]
pub struct InvoiceFile {
    pub invoice_id: InvoiceId,
    pub currency: Currency,
    pub dest_public_key: PublicKey,
    pub dest_payment: u128,
}

/// A single commit, in the shape it is written to a file.
#[derive(Debug)]
pub struct CommitFile {
    pub response_hash: HashResult,
    pub dest_payment: u128,
    pub src_plain_lock: PlainLock,
    pub dest_hashed_lock: HashedLock,
    pub signature: Signature,
}

/// A multi-route commit set, in the shape it is written to a file.
#[derive(Debug)]
pub struct MultiCommitFile {
    pub invoice_id: InvoiceId,
    pub currency: Currency,
    pub total_dest_payment: u128,
    pub commits: Vec<CommitFile>,
}

/// A payment id, in the shape it is written to a file.
#[derive(Debug)]
pub struct PaymentFile {
    pub payment_id: PaymentId,
}

/// A receipt, in the shape it is written to a file.
#[derive(Debug)]
pub struct ReceiptFile {
    pub response_hash: HashResult,
    pub invoice_id: InvoiceId,
    pub currency: Currency,
    pub src_plain_lock: PlainLock,
    pub dest_plain_lock: PlainLock,
    pub dest_payment: u128,
    pub total_dest_payment: u128,
    pub signature: Signature,
}

/// A hashed move token, in the shape it is written to a file.
#[derive(Debug)]
pub struct TokenFile {
    pub prefix_hash: HashResult,
    pub token_info: TokenInfo,
    pub rand_nonce: RandValue,
    pub new_token: Signature,
}

} // verus!
