//! The token channel: it wraps a mutual-credit unit and enforces the
//! single-token-at-a-time discipline. Possession of the signed token
//! grants the right to send the next operation batch; the chain of
//! signatures over canonical buffers keeps both peers' view of the
//! channel byte-for-byte identical, detects duplicates and retransmits,
//! and turns anything else into an explicit inconsistency.

use vstd::prelude::*;

use crate::crypto::{
    HashResult, PublicKey, RandValue, Signature, bytes_eq, bytes_lt, clone_bytes,
    lex_lt, sha_512_256, sha512_256_of, signature_valid,
};
use crate::funder::{MoveTokenHashed, create_hashed};
use crate::messages::{
    FriendTcOp, FriendTcOpView, MoveToken, RelayAddress, TokenInfo, UnsignedMoveToken, ops_view,
    opt_relays_view,
};
use crate::mutual_credit::{
    McMutation, MutualCredit, MutualCreditView, OutgoingMc, ProcessOperationOutput,
    ProcessTransListError, QueueOperationError, process_operation, spec_process_ops,
    spec_queue_operation,
};
use crate::signature_buff::{
    create_init_token_buffer, create_reset_token_buffer, hash_token_info,
    hash_token_info_spec, init_token_buffer, move_token_signature_buffer_of, reset_token_buffer,
};
use crate::verify::verify_move_token;

verus! {

/// Which side currently holds the token. `Incoming` means the last token
/// was received, so it is our turn to send; `Outgoing` keeps the pending
/// move token we sent, for retransmission.
#[derive(Debug)]
pub enum MoveTokenDirection {
    Incoming,
    Outgoing(MoveToken),
}

/// Why an incoming move token was not accepted.
#[derive(Debug)]
pub enum ReceiveMoveTokenError {
    /// The token's signature does not verify: the message is discarded
    /// and the channel stays as it is.
    InvalidSignature,
    /// The token does not continue our chain: the channel is inconsistent.
    ChainInconsistency,
    /// The token's summary hash does not match the state it produces.
    InvalidTokenInfo,
    /// An operation inside the batch was rejected; nothing is applied.
    InvalidTransaction(ProcessTransListError),
}

/// What an accepted incoming move token means.
#[derive(Debug)]
pub enum ReceiveMoveTokenOutput {
    /// A duplicate of the last accepted token: a no-op.
    Duplicate,
    /// The peer asks for a retransmission of our pending outgoing token.
    RetransmitOutgoing(MoveToken),
    /// The expected next token; the outputs of its operations, in order.
    ProcessOpsListOutput(Vec<ProcessOperationOutput>),
}

/// Buffers outgoing operations on a scratch unit until they are sealed
/// into a move token.
#[derive(Debug)]
pub struct TokenChannelSender {
    pub outgoing_tc: OutgoingMc,
    pub operations: Vec<FriendTcOp>,
}

impl TokenChannelSender {
    pub fn new(outgoing_tc: OutgoingMc) -> (r: TokenChannelSender)
        ensures
            r.outgoing_tc.mutual_credit@ == outgoing_tc.mutual_credit@,
            r.operations@.len() == 0,
    {
        TokenChannelSender { outgoing_tc, operations: Vec::new() }
    }

    /// Validate and buffer one outgoing operation.
    pub fn queue_operation(&mut self, operation: &FriendTcOp) -> (r: Result<
        Vec<McMutation>,
        QueueOperationError,
    >)
        requires
            old(self).outgoing_tc.mutual_credit@.wf(),
        ensures
            match r {
                Ok(muts) => {
                    &&& spec_queue_operation(old(self).outgoing_tc.mutual_credit@, operation@)
                        == Ok::<MutualCreditView, QueueOperationError>(
                        final(self).outgoing_tc.mutual_credit@,
                    )
                    &&& final(self).outgoing_tc.mutual_credit@.wf()
                    &&& ops_view(final(self).operations@) == ops_view(old(self).operations@).push(
                        operation@,
                    )
                },
                Err(e) => {
                    &&& final(self).outgoing_tc.mutual_credit@ == old(
                        self,
                    ).outgoing_tc.mutual_credit@
                    &&& final(self).operations@ == old(self).operations@
                    &&& spec_queue_operation(old(self).outgoing_tc.mutual_credit@, operation@)
                        == Err::<MutualCreditView, QueueOperationError>(e)
                },
            },
    {
        let ghost pre_ops = self.operations@;
        match self.outgoing_tc.queue_operation(operation) {
            Ok(muts) => {
                self.operations.push(operation.clone());
                proof {
                    assert(ops_view(self.operations@) =~= ops_view(pre_ops).push(operation@));
                }
                Ok(muts)
            },
            Err(e) => Err(e),
        }
    }

    pub fn is_empty(&self) -> (r: bool)
        ensures
            r == (self.operations@.len() == 0),
    {
        self.operations.len() == 0
    }
}

/// The seed token both peers derive for a fresh channel: the digest of
/// the two public key digests in lexicographic order, doubled to the
/// width of a signature.
pub open spec fn initial_token_of(local_public_key: Seq<u8>, remote_public_key: Seq<u8>) -> Seq<
    u8,
> {
    let hl = sha512_256_of(local_public_key);
    let hr = sha512_256_of(remote_public_key);
    let first = if lex_lt(hl, hr) {
        hl
    } else {
        hr
    };
    let second = if lex_lt(hl, hr) {
        hr
    } else {
        hl
    };
    let digest = sha512_256_of(init_token_buffer(first, second));
    digest + digest
}

/// Unequal byte sequences are lexicographically ordered one way or the
/// other.
pub proof fn lemma_lex_lt_total(a: Seq<u8>, b: Seq<u8>)
    ensures
        a == b || lex_lt(a, b) || lex_lt(b, a),
    decreases a.len(),
{
    if b.len() == 0 {
        if a.len() == 0 {
            assert(a =~= b);
        }
    } else if a.len() == 0 {
    } else if a[0] == b[0] {
        lemma_lex_lt_total(a.skip(1), b.skip(1));
        if a.skip(1) == b.skip(1) {
            assert(a.skip(1).len() == b.skip(1).len());
            assert(a.len() == b.len());
            assert forall|i: int| 0 <= i < a.len() implies a[i] == b[i] by {
                if i > 0 {
                    assert(a.skip(1)[i - 1] == a[i]);
                    assert(b.skip(1)[i - 1] == b[i]);
                }
            }
            assert(a =~= b);
        }
    }
}

/// Law: both peers of a fresh channel derive the same seed token,
/// whichever side computes it.
pub proof fn lemma_initial_token_symmetric(a: Seq<u8>, b: Seq<u8>)
    ensures
        initial_token_of(a, b) == initial_token_of(b, a),
{
    let ha = sha512_256_of(a);
    let hb = sha512_256_of(b);
    lemma_lex_lt_total(ha, hb);
    if lex_lt(ha, hb) && lex_lt(hb, ha) {
        lemma_lex_lt_asymmetric(ha, hb);
    }
}

/// Lexicographic order is asymmetric.
pub proof fn lemma_lex_lt_asymmetric(a: Seq<u8>, b: Seq<u8>)
    requires
        lex_lt(a, b),
    ensures
        !lex_lt(b, a),
    decreases a.len(),
{
    if b.len() > 0 && a.len() > 0 && a[0] == b[0] {
        lemma_lex_lt_asymmetric(a.skip(1), b.skip(1));
    }
}

/// The reset token derived from the last valid token and the balance the
/// reset would commit, doubled to the width of a signature.
pub open spec fn reset_token_of(new_token: Seq<u8>, balance_for_reset: i128) -> Seq<u8> {
    let digest = sha512_256_of(reset_token_buffer(new_token, balance_for_reset));
    digest + digest
}

/// A mutual-credit unit under the single-token-at-a-time discipline.
#[derive(Debug)]
pub struct DirectionalTokenChannel {
    pub direction: MoveTokenDirection,
    /// The newest token on the channel, produced by us or by the peer.
    pub new_token: Signature,
    pub token_channel: MutualCredit,
    /// Incremented on every reset after an inconsistency.
    pub inconsistency_counter: u64,
    /// Incremented on every successful token handoff.
    pub move_token_counter: u128,
    /// The last token accepted from the peer; `None` until the channel
    /// has completed its bootstrap.
    pub opt_last_incoming_move_token_hashed: Option<MoveTokenHashed>,
}

impl DirectionalTokenChannel {
    /// The channel's invariant: a well-formed unit underneath.
    pub open spec fn wf(&self) -> bool {
        &&& self.token_channel@.wf()
        &&& self.move_token_counter < u128::MAX
    }

    /// Create a fresh channel with a zero balance. Both peers derive the
    /// same seed token; the side whose public key digest is smaller
    /// starts with the token "already sent" and waits, the other side
    /// sends the first real move token.
    pub fn new(local_public_key: &PublicKey, remote_public_key: &PublicKey) -> (r:
        DirectionalTokenChannel)
        ensures
            r.wf(),
            r.token_channel@.local_public_key == local_public_key@,
            r.token_channel@.remote_public_key == remote_public_key@,
            r.token_channel@.balance == 0,
            r.token_channel@.local_max_debt == 0,
            r.token_channel@.remote_max_debt == 0,
            r.token_channel@.local_pending_debt == 0,
            r.token_channel@.remote_pending_debt == 0,
            r.token_channel@.local_pending.len() == 0,
            r.token_channel@.remote_pending.len() == 0,
            r.token_channel@.local_status == crate::messages::RequestsStatus::Closed,
            r.token_channel@.remote_status == crate::messages::RequestsStatus::Closed,
            r.new_token@ == initial_token_of(local_public_key@, remote_public_key@),
            r.inconsistency_counter == 0,
            r.move_token_counter == 0,
            r.opt_last_incoming_move_token_hashed is None,
            (r.direction matches MoveTokenDirection::Incoming) == !lex_lt(
                sha512_256_of(local_public_key@),
                sha512_256_of(remote_public_key@),
            ),
    {
        let local_pk_hash = sha_512_256(&local_public_key.bytes);
        let remote_pk_hash = sha_512_256(&remote_public_key.bytes);
        let local_first = bytes_lt(&local_pk_hash.bytes, &remote_pk_hash.bytes);
        let init_buffer = if local_first {
            create_init_token_buffer(&local_pk_hash, &remote_pk_hash)
        } else {
            create_init_token_buffer(&remote_pk_hash, &local_pk_hash)
        };
        let digest = sha_512_256(&init_buffer);
        let mut token_bytes = clone_bytes(&digest.bytes);
        let second_half = clone_bytes(&digest.bytes);
        let mut i: usize = 0;
        while i < second_half.len()
            invariant
                i <= second_half.len(),
                token_bytes@ == digest@ + second_half@.subrange(0, i as int),
            decreases second_half.len() - i,
        {
            token_bytes.push(second_half[i]);
            assert(token_bytes@ =~= digest@ + second_half@.subrange(0, i + 1));
            i = i + 1;
        }
        assert(token_bytes@ =~= digest@ + digest@);
        let new_token = Signature { bytes: token_bytes };
        let token_channel = MutualCredit::new(local_public_key, remote_public_key, 0);
        let direction = if local_first {
            // We are slated as the first sender: the seed counts as our
            // pending outgoing token.
            MoveTokenDirection::Outgoing(
                MoveToken {
                    operations: Vec::new(),
                    opt_local_relays: None,
                    old_token: Signature { bytes: Vec::new() },
                    info_hash: HashResult { bytes: Vec::new() },
                    rand_nonce: RandValue { bytes: Vec::new() },
                    new_token: new_token.clone(),
                },
            )
        } else {
            MoveTokenDirection::Incoming
        };
        DirectionalTokenChannel {
            direction,
            new_token,
            token_channel,
            inconsistency_counter: 0,
            move_token_counter: 0,
            opt_last_incoming_move_token_hashed: None,
        }
    }

    /// Rebuild a channel from agreed reset terms: the agreed balance is
    /// seeded, the reset token becomes the newest token, and the side
    /// that accepted the terms sends first.
    pub fn new_from_reset(
        local_public_key: &PublicKey,
        remote_public_key: &PublicKey,
        reset_token: &Signature,
        balance: i128,
        inconsistency_counter: u64,
    ) -> (r: DirectionalTokenChannel)
        requires
            balance != i128::MIN,
        ensures
            r.wf(),
            r.token_channel@.local_public_key == local_public_key@,
            r.token_channel@.remote_public_key == remote_public_key@,
            r.token_channel@.balance == balance,
            r.token_channel@.local_max_debt == 0,
            r.token_channel@.remote_max_debt == 0,
            r.token_channel@.local_pending_debt == 0,
            r.token_channel@.remote_pending_debt == 0,
            r.token_channel@.local_pending.len() == 0,
            r.token_channel@.remote_pending.len() == 0,
            r.token_channel@.local_status == crate::messages::RequestsStatus::Closed,
            r.token_channel@.remote_status == crate::messages::RequestsStatus::Closed,
            r.new_token@ == reset_token@,
            r.inconsistency_counter == inconsistency_counter,
            r.move_token_counter == 0,
            r.opt_last_incoming_move_token_hashed is None,
            r.direction is Incoming,
    {
        DirectionalTokenChannel {
            direction: MoveTokenDirection::Incoming,
            new_token: reset_token.clone(),
            token_channel: MutualCredit::new(local_public_key, remote_public_key, balance),
            inconsistency_counter,
            move_token_counter: 0,
            opt_last_incoming_move_token_hashed: None,
        }
    }

    /// Get a reference to the internal mutual-credit unit.
    pub fn get_token_channel(&self) -> (r: &MutualCredit)
        ensures
            r@ == self.token_channel@,
    {
        &self.token_channel
    }

    /// The balance a reset of this channel would commit.
    pub fn balance_for_reset(&self) -> (r: i128)
        requires
            self.wf(),
        ensures
            r == self.token_channel@.balance + self.token_channel@.remote_pending_debt,
    {
        self.token_channel.balance_for_reset()
    }

    /// The ceiling we currently grant the remote side.
    pub fn remote_max_debt(&self) -> (r: u128)
        ensures
            r == self.token_channel@.remote_max_debt,
    {
        self.token_channel.state().balance.remote_max_debt
    }

    /// Calculate the token to be used for resetting the channel.
    pub fn calc_channel_reset_token(&self) -> (r: Signature)
        requires
            self.wf(),
        ensures
            r@ == reset_token_of(
                self.new_token@,
                (self.token_channel@.balance + self.token_channel@.remote_pending_debt) as i128,
            ),
    {
        let balance_for_reset = self.token_channel.balance_for_reset();
        let buffer = create_reset_token_buffer(&self.new_token, balance_for_reset);
        let digest = sha_512_256(&buffer);
        let mut token_bytes = clone_bytes(&digest.bytes);
        let second_half = clone_bytes(&digest.bytes);
        let mut i: usize = 0;
        while i < second_half.len()
            invariant
                i <= second_half.len(),
                token_bytes@ == digest@ + second_half@.subrange(0, i as int),
            decreases second_half.len() - i,
        {
            token_bytes.push(second_half[i]);
            assert(token_bytes@ =~= digest@ + second_half@.subrange(0, i + 1));
            i = i + 1;
        }
        assert(token_bytes@ =~= digest@ + digest@);
        Signature { bytes: token_bytes }
    }

    /// If it is our turn to send, open a sender that buffers outgoing
    /// operations on a snapshot of the unit.
    pub fn begin_outgoing_move_token(&self) -> (r: Option<TokenChannelSender>)
        ensures
            match r {
                Some(sender) => {
                    &&& self.direction is Incoming
                    &&& sender.outgoing_tc.mutual_credit@ == self.token_channel@
                    &&& sender.operations@.len() == 0
                },
                None => self.direction is Outgoing,
            },
    {
        match &self.direction {
            MoveTokenDirection::Outgoing(_) => None,
            MoveTokenDirection::Incoming => {
                let outgoing_tc = OutgoingMc::new(&self.token_channel);
                Some(TokenChannelSender::new(outgoing_tc))
            },
        }
    }

    /// The channel summary after this sender's operations, as it will be
    /// hashed into the next move token.
    pub fn create_token_info(&self, sender: &TokenChannelSender) -> (r: TokenInfo)
        requires
            self.wf(),
        ensures
            r@ == self.outgoing_token_info_view(sender.outgoing_tc.mutual_credit@),
    {
        TokenInfo {
            local_public_key: self.token_channel.state().idents.local_public_key.clone(),
            remote_public_key: self.token_channel.state().idents.remote_public_key.clone(),
            inconsistency_counter: self.inconsistency_counter,
            move_token_counter: self.move_token_counter + 1,
            balance: sender.outgoing_tc.mutual_credit.state().balance.balance,
            local_pending_debt: sender.outgoing_tc.mutual_credit.state().balance.local_pending_debt,
            remote_pending_debt: sender
                .outgoing_tc
                .mutual_credit
                .state()
                .balance
                .remote_pending_debt,
        }
    }

    /// Seal a sender's buffered operations into an unsigned move token,
    /// chained to the newest token on the channel.
    pub fn create_outgoing_move_token(
        &self,
        sender: &TokenChannelSender,
        opt_local_relays: Option<Vec<RelayAddress>>,
        rand_nonce: RandValue,
    ) -> (r: UnsignedMoveToken)
        requires
            self.wf(),
        ensures
            r@.operations == ops_view(sender.operations@),
            r@.opt_local_relays == opt_relays_view(opt_local_relays),
            r@.old_token == self.new_token@,
            r@.info_hash == hash_token_info_spec(
                self.outgoing_token_info_view(sender.outgoing_tc.mutual_credit@),
            ),
            r@.rand_nonce == rand_nonce@,
    {
        let token_info = self.create_token_info(sender);
        crate::funder::create_unsigned_move_token(
            crate::messages::clone_ops(&sender.operations),
            opt_local_relays,
            &token_info,
            self.new_token.clone(),
            rand_nonce,
        )
    }

    /// Commit a signed outgoing move token: the sender's state becomes
    /// the channel's state, the token moves to the peer, and the handoff
    /// counter advances.
    pub fn commit_outgoing_move_token(
        &mut self,
        sender: TokenChannelSender,
        move_token: MoveToken,
    )
        requires
            old(self).wf(),
            old(self).move_token_counter + 1 < u128::MAX,
            sender.outgoing_tc.mutual_credit@.wf(),
        ensures
            final(self).wf(),
            final(self).direction matches MoveTokenDirection::Outgoing(pending) && pending@
                == move_token@,
            final(self).new_token@ == move_token@.new_token,
            final(self).token_channel@ == sender.outgoing_tc.mutual_credit@,
            final(self).move_token_counter == old(self).move_token_counter + 1,
            final(self).inconsistency_counter == old(self).inconsistency_counter,
            final(self).opt_last_incoming_move_token_hashed == old(
                self,
            ).opt_last_incoming_move_token_hashed,
    {
        self.new_token = move_token.new_token.clone();
        self.direction = MoveTokenDirection::Outgoing(move_token);
        self.token_channel = sender.outgoing_tc.mutual_credit;
        self.move_token_counter = self.move_token_counter + 1;
    }

    /// Whether a move token carries a valid signature of our peer.
    pub open spec fn mt_sig_valid(&self, mt: crate::messages::MoveTokenView) -> bool {
        signature_valid(
            move_token_signature_buffer_of(mt),
            self.token_channel@.remote_public_key,
            mt.new_token,
        )
    }

    /// The channel summary an outgoing token hashes: our view of the
    /// state after the queued operations, with the handoff counter
    /// advanced.
    pub open spec fn outgoing_token_info_view(
        &self,
        s: MutualCreditView,
    ) -> crate::messages::TokenInfoView {
        crate::messages::TokenInfoView {
            local_public_key: self.token_channel@.local_public_key,
            remote_public_key: self.token_channel@.remote_public_key,
            inconsistency_counter: self.inconsistency_counter,
            move_token_counter: (self.move_token_counter + 1) as u128,
            balance: s.balance,
            local_pending_debt: s.local_pending_debt,
            remote_pending_debt: s.remote_pending_debt,
        }
    }

    /// The channel summary an incoming token must hash: the peer's view
    /// of the state after its operations — sides swapped, balance
    /// negated, the handoff counter advanced.
    pub open spec fn incoming_token_info_view(
        &self,
        s: MutualCreditView,
    ) -> crate::messages::TokenInfoView {
        crate::messages::TokenInfoView {
            local_public_key: self.token_channel@.remote_public_key,
            remote_public_key: self.token_channel@.local_public_key,
            inconsistency_counter: self.inconsistency_counter,
            move_token_counter: (self.move_token_counter + 1) as u128,
            balance: (-s.balance) as i128,
            local_pending_debt: s.remote_pending_debt,
            remote_pending_debt: s.local_pending_debt,
        }
    }

    /// Process an incoming move token without changing the channel.
    ///
    /// A token whose signature fails is rejected outright. A duplicate of
    /// the last accepted token is a no-op. The expected next token has
    /// its operations applied to a scratch copy — all of them or none —
    /// and its summary hash checked against the resulting state. A token
    /// asking for retransmission returns our pending token. Anything
    /// else is a chain inconsistency.
    pub fn simulate_receive_move_token(&self, new_move_token: MoveToken) -> (r: Result<
        ReceiveMoveTokenOutput,
        ReceiveMoveTokenError,
    >)
        requires
            self.wf(),
            match new_move_token.opt_local_relays {
                Some(v) => v@.len() <= u32::MAX && forall|i: int|
                    0 <= i < v@.len() ==> (#[trigger] v@[i])@.address.len() <= u32::MAX,
                None => true,
            },
        ensures
            match r {
                Ok(out) => self.mt_sig_valid(new_move_token@) && match out {
                    ReceiveMoveTokenOutput::Duplicate => self.direction is Incoming
                        && new_move_token@.new_token == self.new_token@,
                    ReceiveMoveTokenOutput::RetransmitOutgoing(sent) => {
                        &&& self.direction matches MoveTokenDirection::Outgoing(p) && sent@ == p@
                            && new_move_token@.new_token == p@.old_token
                        &&& new_move_token@.old_token != self.new_token@
                    },
                    ReceiveMoveTokenOutput::ProcessOpsListOutput(outputs) => {
                        &&& self.direction is Outgoing
                        &&& new_move_token@.old_token == self.new_token@
                        &&& spec_process_ops(self.token_channel@, new_move_token@.operations)
                            matches Ok(s) && new_move_token@.info_hash == hash_token_info_spec(
                            self.incoming_token_info_view(s),
                        )
                        &&& outputs@.len() == new_move_token@.operations.len()
                    },
                },
                Err(e) => match e {
                    ReceiveMoveTokenError::InvalidSignature => !self.mt_sig_valid(
                        new_move_token@,
                    ),
                    ReceiveMoveTokenError::ChainInconsistency => self.mt_sig_valid(
                        new_move_token@,
                    ) && ((self.direction is Incoming && new_move_token@.new_token
                        != self.new_token@) || (self.direction matches
                    MoveTokenDirection::Outgoing(p) && new_move_token@.old_token
                        != self.new_token@ && new_move_token@.new_token != p@.old_token)),
                    ReceiveMoveTokenError::InvalidTransaction(te) => {
                        &&& self.mt_sig_valid(new_move_token@)
                        &&& self.direction is Outgoing
                        &&& new_move_token@.old_token == self.new_token@
                        &&& spec_process_ops(self.token_channel@, new_move_token@.operations)
                            == Err::<MutualCreditView, crate::mutual_credit::ProcessOperationError>(
                            te.process_trans_error,
                        )
                    },
                    ReceiveMoveTokenError::InvalidTokenInfo => {
                        &&& self.mt_sig_valid(new_move_token@)
                        &&& self.direction is Outgoing
                        &&& new_move_token@.old_token == self.new_token@
                        &&& spec_process_ops(self.token_channel@, new_move_token@.operations)
                            matches Ok(s) && new_move_token@.info_hash != hash_token_info_spec(
                            self.incoming_token_info_view(s),
                        )
                    },
                },
            },
    {
        let ghost mtv = new_move_token@;
        // Step 1 — signature: the token must be signed by our peer.
        if !verify_move_token(
            &new_move_token,
            &self.token_channel.state().idents.remote_public_key,
        ) {
            return Err(ReceiveMoveTokenError::InvalidSignature);
        }
        // Step 2 — chain position.
        match &self.direction {
            MoveTokenDirection::Incoming => {
                if bytes_eq(&new_move_token.new_token.bytes, &self.new_token.bytes) {
                    Ok(ReceiveMoveTokenOutput::Duplicate)
                } else {
                    Err(ReceiveMoveTokenError::ChainInconsistency)
                }
            },
            MoveTokenDirection::Outgoing(pending) => {
                if bytes_eq(&new_move_token.old_token.bytes, &self.new_token.bytes) {
                    match self.process_incoming_operations(new_move_token) {
                        Ok((outputs, _new_mc)) => Ok(
                            ReceiveMoveTokenOutput::ProcessOpsListOutput(outputs),
                        ),
                        Err(e) => Err(e),
                    }
                } else if bytes_eq(&pending.old_token.bytes, &new_move_token.new_token.bytes) {
                    // The peer asks us to retransmit our pending token.
                    Ok(ReceiveMoveTokenOutput::RetransmitOutgoing(pending.clone()))
                } else {
                    Err(ReceiveMoveTokenError::ChainInconsistency)
                }
            },
        }
    }

    /// Steps 3 and 4 of receiving the expected next token: apply the
    /// operations on a scratch copy and check the summary hash against
    /// the state they produce.
    fn process_incoming_operations(&self, new_move_token: MoveToken) -> (r: Result<
        (Vec<ProcessOperationOutput>, MutualCredit),
        ReceiveMoveTokenError,
    >)
        requires
            self.wf(),
            self.mt_sig_valid(new_move_token@),
            self.direction is Outgoing,
            new_move_token@.old_token == self.new_token@,
        ensures
            match r {
                Ok((outputs, new_mc)) => {
                    &&& spec_process_ops(self.token_channel@, new_move_token@.operations)
                        == Ok::<MutualCreditView, crate::mutual_credit::ProcessOperationError>(
                        new_mc@,
                    )
                    &&& new_mc@.wf()
                    &&& new_move_token@.info_hash == hash_token_info_spec(
                        self.incoming_token_info_view(new_mc@),
                    )
                    &&& outputs@.len() == new_move_token@.operations.len()
                },
                Err(e) => match e {
                    ReceiveMoveTokenError::InvalidTransaction(te) => spec_process_ops(
                        self.token_channel@,
                        new_move_token@.operations,
                    ) == Err::<MutualCreditView, crate::mutual_credit::ProcessOperationError>(
                        te.process_trans_error,
                    ),
                    ReceiveMoveTokenError::InvalidTokenInfo => spec_process_ops(
                        self.token_channel@,
                        new_move_token@.operations,
                    ) matches Ok(s) && new_move_token@.info_hash != hash_token_info_spec(
                        self.incoming_token_info_view(s),
                    ),
                    _ => false,
                },
            },
    {
        let operations = new_move_token.operations;
        let ghost opsv = ops_view(operations@);
        let mut outputs: Vec<ProcessOperationOutput> = Vec::new();
        let mut cloned = self.token_channel.clone();
        let mut i: usize = 0;
        assert(opsv.skip(0) =~= opsv);
        while i < operations.len()
            invariant
                i <= operations.len(),
                opsv == ops_view(operations@),
                opsv == new_move_token@.operations,
                opsv.len() == operations@.len(),
                forall|j: int| 0 <= j < opsv.len() ==> opsv[j] == (#[trigger] operations@[j])@,
                cloned@.wf(),
                outputs@.len() == i,
                spec_process_ops(self.token_channel@, opsv) == spec_process_ops(
                    cloned@,
                    opsv.skip(i as int),
                ),
            decreases operations.len() - i,
        {
            let op = operations[i].clone();
            let ghost pre = cloned@;
            proof {
                assert(opsv.skip(i as int)[0] == opsv[i as int]);
                assert(opsv.skip(i as int).skip(1) =~= opsv.skip(i + 1));
            }
            match process_operation(&mut cloned, op) {
                Err(e) => {
                    proof {
                        assert(spec_process_ops(pre, opsv.skip(i as int)) == Err::<
                            MutualCreditView,
                            crate::mutual_credit::ProcessOperationError,
                        >(e));
                    }
                    return Err(
                        ReceiveMoveTokenError::InvalidTransaction(
                            ProcessTransListError { index: i, process_trans_error: e },
                        ),
                    );
                },
                Ok(out) => {
                    outputs.push(out);
                    proof {
                        assert(spec_process_ops(pre, opsv.skip(i as int)) == spec_process_ops(
                            cloned@,
                            opsv.skip(i + 1),
                        ));
                    }
                },
            }
            i = i + 1;
        }
        proof {
            assert(opsv.skip(operations@.len() as int) =~= Seq::<FriendTcOpView>::empty());
        }
        // Step 3 — info hash: the token must summarize exactly the state
        // its operations produce, from the peer's perspective.
        let balance = cloned.state().balance.balance;
        let expected_info = TokenInfo {
            local_public_key: self.token_channel.state().idents.remote_public_key.clone(),
            remote_public_key: self.token_channel.state().idents.local_public_key.clone(),
            inconsistency_counter: self.inconsistency_counter,
            move_token_counter: self.move_token_counter + 1,
            balance: -balance,
            local_pending_debt: cloned.state().balance.remote_pending_debt,
            remote_pending_debt: cloned.state().balance.local_pending_debt,
        };
        let expected_hash = hash_token_info(&expected_info);
        if !bytes_eq(&expected_hash.bytes, &new_move_token.info_hash.bytes) {
            return Err(ReceiveMoveTokenError::InvalidTokenInfo);
        }
        Ok((outputs, cloned))
    }

    /// The observable channel state is the same in both values.
    pub open spec fn same_channel_state(&self, other: &DirectionalTokenChannel) -> bool {
        &&& self.token_channel@ == other.token_channel@
        &&& self.new_token@ == other.new_token@
        &&& self.move_token_counter == other.move_token_counter
        &&& self.inconsistency_counter == other.inconsistency_counter
        &&& (self.direction is Incoming <==> other.direction is Incoming)
    }

    /// Process an incoming move token and, when it is the expected next
    /// token, commit it: the operations' effect becomes the channel
    /// state, the token is recorded as the last accepted one, and the
    /// handoff counter advances. A duplicate, a retransmission request
    /// and every error leave the channel exactly as it was.
    pub fn receive_move_token(&mut self, new_move_token: MoveToken) -> (r: Result<
        ReceiveMoveTokenOutput,
        ReceiveMoveTokenError,
    >)
        requires
            old(self).wf(),
            old(self).move_token_counter + 1 < u128::MAX,
            match new_move_token.opt_local_relays {
                Some(v) => v@.len() <= u32::MAX && forall|i: int|
                    0 <= i < v@.len() ==> (#[trigger] v@[i])@.address.len() <= u32::MAX,
                None => true,
            },
        ensures
            final(self).wf(),
            match r {
                Ok(out) => old(self).mt_sig_valid(new_move_token@) && match out {
                    ReceiveMoveTokenOutput::Duplicate => {
                        &&& old(self).direction is Incoming
                        &&& new_move_token@.new_token == old(self).new_token@
                        &&& final(self).same_channel_state(old(self))
                    },
                    ReceiveMoveTokenOutput::RetransmitOutgoing(sent) => {
                        &&& old(self).direction matches MoveTokenDirection::Outgoing(p) && sent@
                            == p@ && new_move_token@.new_token == p@.old_token
                        &&& new_move_token@.old_token != old(self).new_token@
                        &&& final(self).same_channel_state(old(self))
                    },
                    ReceiveMoveTokenOutput::ProcessOpsListOutput(outputs) => {
                        &&& old(self).direction is Outgoing
                        &&& new_move_token@.old_token == old(self).new_token@
                        &&& spec_process_ops(
                            old(self).token_channel@,
                            new_move_token@.operations,
                        ) == Ok::<MutualCreditView, crate::mutual_credit::ProcessOperationError>(
                            final(self).token_channel@,
                        )
                        &&& new_move_token@.info_hash == hash_token_info_spec(
                            old(self).incoming_token_info_view(final(self).token_channel@),
                        )
                        &&& outputs@.len() == new_move_token@.operations.len()
                        &&& final(self).direction is Incoming
                        &&& final(self).new_token@ == new_move_token@.new_token
                        &&& final(self).move_token_counter == old(self).move_token_counter + 1
                        &&& final(self).inconsistency_counter == old(self).inconsistency_counter
                        &&& final(self).opt_last_incoming_move_token_hashed matches Some(h) && h@
                            .new_token == new_move_token@.new_token
                    },
                },
                Err(e) => final(self).same_channel_state(old(self)) && match e {
                    ReceiveMoveTokenError::InvalidSignature => !old(self).mt_sig_valid(
                        new_move_token@,
                    ),
                    ReceiveMoveTokenError::ChainInconsistency => old(self).mt_sig_valid(
                        new_move_token@,
                    ) && ((old(self).direction is Incoming && new_move_token@.new_token != old(
                        self,
                    ).new_token@) || (old(self).direction matches MoveTokenDirection::Outgoing(p)
                        && new_move_token@.old_token != old(self).new_token@
                        && new_move_token@.new_token != p@.old_token)),
                    ReceiveMoveTokenError::InvalidTransaction(te) => {
                        &&& old(self).mt_sig_valid(new_move_token@)
                        &&& old(self).direction is Outgoing
                        &&& new_move_token@.old_token == old(self).new_token@
                        &&& spec_process_ops(
                            old(self).token_channel@,
                            new_move_token@.operations,
                        ) == Err::<MutualCreditView, crate::mutual_credit::ProcessOperationError>(
                            te.process_trans_error,
                        )
                    },
                    ReceiveMoveTokenError::InvalidTokenInfo => {
                        &&& old(self).mt_sig_valid(new_move_token@)
                        &&& old(self).direction is Outgoing
                        &&& new_move_token@.old_token == old(self).new_token@
                        &&& spec_process_ops(
                            old(self).token_channel@,
                            new_move_token@.operations,
                        ) matches Ok(s) && new_move_token@.info_hash != hash_token_info_spec(
                            old(self).incoming_token_info_view(s),
                        )
                    },
                },
            },
    {
        let ghost mtv = new_move_token@;
        if !verify_move_token(
            &new_move_token,
            &self.token_channel.state().idents.remote_public_key,
        ) {
            return Err(ReceiveMoveTokenError::InvalidSignature);
        }
        let is_incoming = match &self.direction {
            MoveTokenDirection::Incoming => true,
            MoveTokenDirection::Outgoing(_) => false,
        };
        if is_incoming {
            if bytes_eq(&new_move_token.new_token.bytes, &self.new_token.bytes) {
                return Ok(ReceiveMoveTokenOutput::Duplicate);
            } else {
                return Err(ReceiveMoveTokenError::ChainInconsistency);
            }
        }
        if !bytes_eq(&new_move_token.old_token.bytes, &self.new_token.bytes) {
            let retransmit = match &self.direction {
                MoveTokenDirection::Incoming => None,
                MoveTokenDirection::Outgoing(pending) => {
                    if bytes_eq(&pending.old_token.bytes, &new_move_token.new_token.bytes) {
                        Some(pending.clone())
                    } else {
                        None
                    }
                },
            };
            return match retransmit {
                Some(sent) => Ok(ReceiveMoveTokenOutput::RetransmitOutgoing(sent)),
                None => Err(ReceiveMoveTokenError::ChainInconsistency),
            };
        }
        // The expected next token: build its summary before consuming it.
        let info = TokenInfo {
            local_public_key: self.token_channel.state().idents.local_public_key.clone(),
            remote_public_key: self.token_channel.state().idents.remote_public_key.clone(),
            inconsistency_counter: self.inconsistency_counter,
            move_token_counter: self.move_token_counter,
            balance: self.token_channel.state().balance.balance,
            local_pending_debt: self.token_channel.state().balance.local_pending_debt,
            remote_pending_debt: self.token_channel.state().balance.remote_pending_debt,
        };
        let hashed = create_hashed(&new_move_token, &info);
        let new_token = new_move_token.new_token.clone();
        match self.process_incoming_operations(new_move_token) {
            Err(e) => Err(e),
            Ok((outputs, new_mc)) => {
                self.token_channel = new_mc;
                self.direction = MoveTokenDirection::Incoming;
                self.new_token = new_token;
                self.move_token_counter = self.move_token_counter + 1;
                self.opt_last_incoming_move_token_hashed = Some(hashed);
                Ok(ReceiveMoveTokenOutput::ProcessOpsListOutput(outputs))
            },
        }
    }

    /// The pending outgoing move token, if the peer holds the token.
    pub fn get_outgoing_move_token(&self) -> (r: Option<MoveToken>)
        ensures
            match r {
                Some(mt) => self.direction matches MoveTokenDirection::Outgoing(pending) && mt@
                    == pending@,
                None => self.direction is Incoming,
            },
    {
        match &self.direction {
            MoveTokenDirection::Incoming => None,
            MoveTokenDirection::Outgoing(pending) => Some(pending.clone()),
        }
    }
}

} // verus!
