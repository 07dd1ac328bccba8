//! Funder-side helper types: signed move tokens, hashed move-token
//! summaries, responses signed on behalf of an invoice's destination, and
//! the funder's message envelopes.

use vstd::prelude::*;

use crate::crypto::{
    HashResult, PRIVATE_KEY_LEN, PrivateKey, PublicKey, RandValue, Signature, Uid, public_of,
    sign_buffer, sign_of, signature_valid,
};
use crate::messages::{
    CancelSendFundsOp, CollectSendFundsOp, FriendMessage, FriendTcOp, MoveToken,
    PendingTransaction, RelayAddress, RequestSendFundsOp, ResetTerms, ResponseSendFundsOp,
    TokenInfo, TokenInfoView, UnsignedMoveToken, ops_view, opt_relays_view,
};
use crate::signature_buff::{
    create_response_signature_buffer, hash_token_info, hash_token_info_spec,
    move_token_signature_buffer, move_token_signature_buffer_of, prefix_hash_spec,
    response_signature_buffer, unsigned_move_token_signature_buff, unsigned_prefix_hash,
};

verus! {

/// Create a cancel operation for a request id.
pub fn create_cancel_send_funds(request_id: Uid) -> (r: CancelSendFundsOp)
    ensures
        r@.request_id == request_id@,
{
    CancelSendFundsOp { request_id }
}

/// Build a move token that still lacks its signature: the buffered
/// operations, the relay update, the chain link to the previous token and
/// the digest of the resulting channel summary.
pub fn create_unsigned_move_token(
    operations: Vec<FriendTcOp>,
    opt_local_relays: Option<Vec<RelayAddress>>,
    token_info: &TokenInfo,
    old_token: Signature,
    rand_nonce: RandValue,
) -> (r: UnsignedMoveToken)
    ensures
        r@.operations == ops_view(operations@),
        r@.opt_local_relays == opt_relays_view(opt_local_relays),
        r@.old_token == old_token@,
        r@.info_hash == hash_token_info_spec(token_info@),
        r@.rand_nonce == rand_nonce@,
{
    let info_hash = hash_token_info(token_info);
    UnsignedMoveToken { operations, opt_local_relays, old_token, info_hash, rand_nonce }
}

/// Sign an unsigned move token, producing the `new_token` over the
/// canonical move-token buffer.
pub fn sign_move_token(
    unsigned_move_token: UnsignedMoveToken,
    private_key: &PrivateKey,
) -> (r: MoveToken)
    requires
        private_key@.len() == PRIVATE_KEY_LEN,
        match unsigned_move_token.opt_local_relays {
            Some(v) => v@.len() <= u32::MAX && forall|i: int|
                0 <= i < v@.len() ==> (#[trigger] v@[i])@.address.len() <= u32::MAX,
            None => true,
        },
    ensures
        r@.operations == unsigned_move_token@.operations,
        r@.opt_local_relays == unsigned_move_token@.opt_local_relays,
        r@.old_token == unsigned_move_token@.old_token,
        r@.info_hash == unsigned_move_token@.info_hash,
        r@.rand_nonce == unsigned_move_token@.rand_nonce,
        r@.new_token == sign_of(move_token_signature_buffer_of(r@), private_key@),
        signature_valid(
            move_token_signature_buffer_of(r@),
            public_of(private_key@),
            r@.new_token,
        ),
{
    let signature_buff = unsigned_move_token_signature_buff(&unsigned_move_token);
    let new_token = sign_buffer(&signature_buff, private_key);
    let r = MoveToken {
        operations: unsigned_move_token.operations,
        opt_local_relays: unsigned_move_token.opt_local_relays,
        old_token: unsigned_move_token.old_token,
        info_hash: unsigned_move_token.info_hash,
        rand_nonce: unsigned_move_token.rand_nonce,
        new_token,
    };
    assert(move_token_signature_buffer_of(r@) == signature_buff@);
    r
}

/// Create a signed response for a pending transaction, on behalf of the
/// route's destination.
pub fn create_response_send_funds(
    pending_transaction: &PendingTransaction,
    dest_hashed_lock: crate::crypto::HashedLock,
    rand_nonce: RandValue,
    private_key: &PrivateKey,
) -> (r: ResponseSendFundsOp)
    requires
        private_key@.len() == PRIVATE_KEY_LEN,
    ensures
        r@.request_id == pending_transaction@.request_id,
        r@.dest_hashed_lock == dest_hashed_lock@,
        r@.rand_nonce == rand_nonce@,
        signature_valid(
            response_signature_buffer(r@, pending_transaction@),
            public_of(private_key@),
            r@.signature,
        ),
{
    let u_response = ResponseSendFundsOp {
        request_id: pending_transaction.request_id.clone(),
        dest_hashed_lock,
        rand_nonce,
        signature: Signature { bytes: Vec::new() },
    };
    let signature_buff = create_response_signature_buffer(&u_response, pending_transaction);
    let signature = sign_buffer(&signature_buff, private_key);
    let r = ResponseSendFundsOp {
        request_id: u_response.request_id,
        dest_hashed_lock: u_response.dest_hashed_lock,
        rand_nonce: u_response.rand_nonce,
        signature,
    };
    assert(response_signature_buffer(r@, pending_transaction@) == signature_buff@);
    r
}

/// Spec image of a hashed move token.
pub ghost struct MoveTokenHashedView {
    pub prefix_hash: Seq<u8>,
    pub token_info: TokenInfoView,
    pub rand_nonce: Seq<u8>,
    pub new_token: Seq<u8>,
}

/// A compressed record of an accepted move token: the hash of its
/// operations and relays instead of the operations themselves.
#[derive(Debug)]
pub struct MoveTokenHashed {
    /// Hash of operations and local relays
    pub prefix_hash: HashResult,
    pub token_info: TokenInfo,
    pub rand_nonce: RandValue,
    pub new_token: Signature,
}

impl View for MoveTokenHashed {
    type V = MoveTokenHashedView;

    open spec fn view(&self) -> MoveTokenHashedView {
        MoveTokenHashedView {
            prefix_hash: self.prefix_hash@,
            token_info: self.token_info@,
            rand_nonce: self.rand_nonce@,
            new_token: self.new_token@,
        }
    }
}

impl Clone for MoveTokenHashed {
    fn clone(&self) -> (r: Self)
        ensures
            r@ == self@,
    {
        MoveTokenHashed {
            prefix_hash: self.prefix_hash.clone(),
            token_info: self.token_info.clone(),
            rand_nonce: self.rand_nonce.clone(),
            new_token: self.new_token.clone(),
        }
    }
}

/// The buffer whose signature a hashed move token's `new_token` is.
pub open spec fn move_token_hashed_signature_buffer(h: MoveTokenHashedView) -> Seq<u8> {
    crate::crypto::sha512_256_of(crate::signature_buff::token_next_prefix()) + h.prefix_hash
        + hash_token_info_spec(h.token_info) + h.rand_nonce
}

/// Create the hashed version of a move token. It keeps the digest of the
/// operations and relays, so it is usually much shorter, yet the token's
/// signature can still be checked against it.
pub fn create_hashed(move_token: &MoveToken, token_info: &TokenInfo) -> (r: MoveTokenHashed)
    requires
        match move_token.opt_local_relays {
            Some(v) => v@.len() <= u32::MAX && forall|i: int|
                0 <= i < v@.len() ==> (#[trigger] v@[i])@.address.len() <= u32::MAX,
            None => true,
        },
    ensures
        r@.prefix_hash == prefix_hash_spec(
            move_token@.old_token,
            move_token@.operations,
            move_token@.opt_local_relays,
        ),
        r@.token_info == token_info@,
        r@.rand_nonce == move_token@.rand_nonce,
        r@.new_token == move_token@.new_token,
{
    MoveTokenHashed {
        prefix_hash: crate::signature_buff::prefix_hash(move_token),
        token_info: token_info.clone(),
        rand_nonce: move_token.rand_nonce.clone(),
        new_token: move_token.new_token.clone(),
    }
}

/// An operation that may still need its signature attached.
#[derive(Debug)]
pub enum UnsignedFriendTcOp {
    EnableRequests,
    DisableRequests,
    SetRemoteMaxDebt(u128),
    RequestSendFunds(RequestSendFundsOp),
    ResponseSendFunds(ResponseSendFundsOp),
    UnsignedResponseSendFunds(PendingTransaction),
    CancelSendFunds(CancelSendFundsOp),
    CollectSendFunds(CollectSendFundsOp),
}

/// A friend coming online or going offline.
#[derive(Debug)]
pub enum IncomingLivenessMessage {
    Online(PublicKey),
    Offline(PublicKey),
}

/// The locally derived terms sent to a peer after an inconsistency.
#[derive(Debug)]
pub struct FriendInconsistencyError {
    pub reset_token: Signature,
    pub balance_for_reset: i128,
}

/// Configuration requests the funder sends to the channeler.
#[derive(Debug)]
pub enum ChannelerConfig {
    /// Set relay addresses for the local node
    SetRelays(Vec<RelayAddress>),
    UpdateFriend(crate::messages::ChannelerUpdateFriend),
    RemoveFriend(PublicKey),
}

/// A communication event entering the funder.
#[derive(Debug)]
pub enum FunderIncomingComm {
    Liveness(IncomingLivenessMessage),
    Friend(PublicKey, FriendMessage),
}

/// An incoming message to the funder.
#[derive(Debug)]
pub enum FunderIncoming {
    Init,
    Control(crate::messages::FunderIncomingControl),
    Comm(FunderIncomingComm),
}

/// An outgoing message from the funder.
#[derive(Debug)]
pub enum FunderOutgoing {
    Control(crate::messages::FunderOutgoingControl),
    Comm(FunderOutgoingComm),
}

/// A communication event leaving the funder.
#[derive(Debug)]
pub enum FunderOutgoingComm {
    FriendMessage(PublicKey, FriendMessage),
    ChannelerConfig(ChannelerConfig),
}

} // verus!
