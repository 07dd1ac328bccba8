//! The canonical byte layouts that the protocol signs and hashes: the
//! response buffer, the move-token chain hashes, the receipt and commit
//! buffers. All integers are big-endian; variable-length values carry a
//! length prefix.

use vstd::prelude::*;

use crate::crypto::{HashResult, hash_lock_of, sha_512_256, sha512_256_of};
use crate::messages::{
    FriendTcOp, FriendTcOpView, MoveToken, MoveTokenView, PendingTransaction,
    PendingTransactionView, RelayAddress, RelayAddressView, ResponseSendFundsOp,
    ResponseSendFundsOpView, TokenInfo, TokenInfoView, UnsignedMoveToken, UnsignedMoveTokenView,
    opt_relays_view,
};
use crate::serialize::{
    i128_be, push_bytes, push_i128_be, push_u128_be, push_u32_be, push_u64_be, u128_be, u32_be,
    u64_be,
};

verus! {

/// The bytes of the prefix `"FUND_RESPONSE"`.
pub open spec fn funds_response_prefix() -> Seq<u8> {
    seq![70u8, 85, 78, 68, 95, 82, 69, 83, 80, 79, 78, 83, 69]
}

/// The bytes of the prefix `"NEXT"`, used for chaining move tokens.
pub open spec fn token_next_prefix() -> Seq<u8> {
    seq![78u8, 69, 88, 84]
}

/// The bytes of the prefix `"RESET"`, used for reset tokens.
pub open spec fn token_reset_prefix() -> Seq<u8> {
    seq![82u8, 69, 83, 69, 84]
}

/// The bytes of the prefix `"INIT"`, used to seed a fresh channel.
pub open spec fn token_init_prefix() -> Seq<u8> {
    seq![73u8, 78, 73, 84]
}

pub(crate) fn push_funds_response_prefix(out: &mut Vec<u8>)
    ensures
        final(out)@ == old(out)@ + funds_response_prefix(),
{
    let ghost orig = out@;
    out.push(70);
    out.push(85);
    out.push(78);
    out.push(68);
    out.push(95);
    out.push(82);
    out.push(69);
    out.push(83);
    out.push(80);
    out.push(79);
    out.push(78);
    out.push(83);
    out.push(69);
    assert(out@ =~= orig + funds_response_prefix());
}

pub(crate) fn push_token_next_prefix(out: &mut Vec<u8>)
    ensures
        final(out)@ == old(out)@ + token_next_prefix(),
{
    let ghost orig = out@;
    out.push(78);
    out.push(69);
    out.push(88);
    out.push(84);
    assert(out@ =~= orig + token_next_prefix());
}

pub(crate) fn push_token_reset_prefix(out: &mut Vec<u8>)
    ensures
        final(out)@ == old(out)@ + token_reset_prefix(),
{
    let ghost orig = out@;
    out.push(82);
    out.push(69);
    out.push(83);
    out.push(69);
    out.push(84);
    assert(out@ =~= orig + token_reset_prefix());
}

pub(crate) fn push_token_init_prefix(out: &mut Vec<u8>)
    ensures
        final(out)@ == old(out)@ + token_init_prefix(),
{
    let ghost orig = out@;
    out.push(73);
    out.push(78);
    out.push(73);
    out.push(84);
    assert(out@ =~= orig + token_init_prefix());
}

// ---------------------------------------------------------------------------
// Concatenation of byte-sequence lists
// ---------------------------------------------------------------------------

/// Concatenate a list of byte sequences.
pub open spec fn concat_bytes(s: Seq<Seq<u8>>) -> Seq<u8>
    decreases s.len(),
{
    if s.len() == 0 {
        Seq::empty()
    } else {
        s[0] + concat_bytes(s.skip(1))
    }
}

/// Concatenating one more element extends the concatenation.
pub proof fn lemma_concat_bytes_take(s: Seq<Seq<u8>>, i: int)
    requires
        0 <= i < s.len(),
    ensures
        concat_bytes(s.take(i + 1)) == concat_bytes(s.take(i)) + s[i],
    decreases i,
{
    if i == 0 {
        assert(s.take(1).skip(1) =~= Seq::<Seq<u8>>::empty());
        assert(s.take(0) =~= Seq::<Seq<u8>>::empty());
        assert(concat_bytes(Seq::<Seq<u8>>::empty()) =~= Seq::<u8>::empty());
        assert(s.take(1)[0] == s[0]);
        assert(concat_bytes(s.take(1)) == s.take(1)[0] + concat_bytes(s.take(1).skip(1)));
        assert(concat_bytes(s.take(1)) =~= s[0]);
        assert(concat_bytes(s.take(0)) + s[0] =~= s[0]);
    } else {
        lemma_concat_bytes_take(s.skip(1), i - 1);
        assert(s.take(i + 1).skip(1) =~= s.skip(1).take(i));
        assert(s.take(i).skip(1) =~= s.skip(1).take(i - 1));
        assert(s.take(i + 1)[0] == s[0]);
        assert(s.take(i)[0] == s[0]);
        assert(s.skip(1)[i - 1] == s[i]);
        assert(concat_bytes(s.take(i + 1)) == s[0] + concat_bytes(s.skip(1).take(i)));
        assert(concat_bytes(s.take(i)) == s[0] + concat_bytes(s.skip(1).take(i - 1)));
        assert(s[0] + (concat_bytes(s.skip(1).take(i - 1)) + s[i]) =~= (s[0] + concat_bytes(
            s.skip(1).take(i - 1),
        )) + s[i]);
    }
}

// ---------------------------------------------------------------------------
// Canonical encodings
// ---------------------------------------------------------------------------

/// Canonical encoding of a variable-length blob: a 32 bit length prefix
/// followed by the bytes.
pub open spec fn canonical_blob(s: Seq<u8>) -> Seq<u8> {
    u32_be(s.len() as u32) + s
}

/// Append the canonical encoding of a blob.
pub fn push_canonical_blob(out: &mut Vec<u8>, data: &Vec<u8>)
    requires
        data@.len() <= u32::MAX,
    ensures
        final(out)@ == old(out)@ + canonical_blob(data@),
{
    let ghost orig = out@;
    let n = data.len();
    push_u32_be(out, n as u32);
    push_bytes(out, data);
    assert(out@ =~= orig + canonical_blob(data@));
}

/// Canonical encoding of a currency name: a 64 bit length prefix
/// followed by the name's bytes.
pub open spec fn canonical_currency(s: Seq<u8>) -> Seq<u8> {
    u64_be(s.len() as u64) + s
}

/// Append the canonical encoding of a currency name.
pub fn push_canonical_currency(out: &mut Vec<u8>, data: &Vec<u8>)
    ensures
        final(out)@ == old(out)@ + canonical_currency(data@),
{
    let ghost orig = out@;
    let n = data.len();
    push_u64_be(out, n as u64);
    push_bytes(out, data);
    assert(out@ =~= orig + canonical_currency(data@));
}

/// Canonical encoding of a relay address: the public key followed by the
/// canonical address blob.
pub open spec fn canonical_relay(r: RelayAddressView) -> Seq<u8> {
    r.public_key + canonical_blob(r.address)
}

/// Canonical encoding of a relay list: a 64 bit count followed by the
/// canonical relays.
pub open spec fn canonical_relays(s: Seq<RelayAddressView>) -> Seq<u8> {
    u64_be(s.len() as u64) + concat_bytes(s.map_values(|r: RelayAddressView| canonical_relay(r)))
}

/// Canonical encoding of an optional relay list: a presence tag, then the
/// canonical list when present.
pub open spec fn canonical_opt_relays(opt: Option<Seq<RelayAddressView>>) -> Seq<u8> {
    match opt {
        None => seq![0u8],
        Some(s) => seq![1u8] + canonical_relays(s),
    }
}

/// Append the canonical encoding of an optional relay list.
pub fn push_canonical_opt_relays(out: &mut Vec<u8>, opt: &Option<Vec<RelayAddress>>)
    requires
        match *opt {
            Some(v) => v@.len() <= u32::MAX && forall|i: int|
                0 <= i < v@.len() ==> (#[trigger] v@[i])@.address.len() <= u32::MAX,
            None => true,
        },
    ensures
        final(out)@ == old(out)@ + canonical_opt_relays(opt_relays_view(*opt)),
{
    let ghost orig = out@;
    match opt {
        None => {
            out.push(0);
            assert(out@ =~= orig + canonical_opt_relays(None));
        },
        Some(relays) => {
            out.push(1);
            let n = relays.len();
            push_u64_be(out, n as u64);
            let ghost rviews = relays@.map_values(|r: RelayAddress| r@);
            let ghost encoded = rviews.map_values(|r: RelayAddressView| canonical_relay(r));
            let mut i: usize = 0;
            assert(concat_bytes(encoded.take(0)) =~= Seq::<u8>::empty());
            while i < relays.len()
                invariant
                    i <= relays.len(),
                    relays@.len() == rviews.len(),
                    relays@.len() == encoded.len(),
                    forall|j: int| 0 <= j < rviews.len() ==> rviews[j] == relays@[j]@,
                    forall|j: int|
                        0 <= j < encoded.len() ==> encoded[j] == canonical_relay(relays@[j]@),
                    forall|j: int|
                        0 <= j < relays@.len() ==> (#[trigger] relays@[j])@.address.len()
                            <= u32::MAX,
                    out@ == orig + seq![1u8] + u64_be(relays@.len() as u64) + concat_bytes(
                        encoded.take(i as int),
                    ),
                decreases relays.len() - i,
            {
                let ghost before = out@;
                push_bytes(out, &relays[i].public_key.bytes);
                push_canonical_blob(out, &relays[i].address.bytes);
                proof {
                    lemma_concat_bytes_take(encoded, i as int);
                    assert(out@ =~= before + canonical_relay(relays@[i as int]@));
                    assert(out@ =~= orig + seq![1u8] + u64_be(relays@.len() as u64) + concat_bytes(
                        encoded.take(i + 1),
                    ));
                }
                i = i + 1;
            }
            assert(encoded.take(relays@.len() as int) =~= encoded);
            assert(out@ =~= orig + canonical_opt_relays(opt_relays_view(*opt)));
        },
    }
}

/// Canonical encoding of one token channel operation: a tag byte followed
/// by the operation's fields in order.
pub open spec fn canonical_op(op: FriendTcOpView) -> Seq<u8> {
    match op {
        FriendTcOpView::EnableRequests => seq![0u8],
        FriendTcOpView::DisableRequests => seq![1u8],
        FriendTcOpView::SetRemoteMaxDebt(x) => seq![2u8] + u128_be(x),
        FriendTcOpView::RequestSendFunds(r) => seq![3u8] + r.request_id + canonical_currency(
            r.currency,
        ) + r.src_hashed_lock + u64_be(r.route.len() as u64) + concat_bytes(r.route) + u128_be(
            r.dest_payment,
        ) + u128_be(r.total_dest_payment) + r.invoice_id + u128_be(r.left_fees),
        FriendTcOpView::ResponseSendFunds(r) => seq![4u8] + r.request_id + r.dest_hashed_lock
            + r.rand_nonce + r.signature,
        FriendTcOpView::CancelSendFunds(c) => seq![5u8] + c.request_id,
        FriendTcOpView::CollectSendFunds(c) => seq![6u8] + c.request_id + c.src_plain_lock
            + c.dest_plain_lock,
    }
}

/// Append the canonical encoding of an operation.
pub fn push_canonical_op(out: &mut Vec<u8>, op: &FriendTcOp)
    ensures
        final(out)@ == old(out)@ + canonical_op(op@),
{
    let ghost orig = out@;
    match op {
        FriendTcOp::EnableRequests => {
            out.push(0);
            assert(out@ =~= orig + canonical_op(op@));
        },
        FriendTcOp::DisableRequests => {
            out.push(1);
            assert(out@ =~= orig + canonical_op(op@));
        },
        FriendTcOp::SetRemoteMaxDebt(x) => {
            out.push(2);
            push_u128_be(out, *x);
            assert(out@ =~= orig + canonical_op(op@));
        },
        FriendTcOp::RequestSendFunds(r) => {
            out.push(3);
            push_bytes(out, &r.request_id.bytes);
            push_canonical_currency(out, &r.currency.bytes);
            push_bytes(out, &r.src_hashed_lock.bytes);
            let n = r.route.public_keys.len();
            push_u64_be(out, n as u64);
            let ghost route_view = r.route@;
            let mut i: usize = 0;
            assert(concat_bytes(route_view.take(0)) =~= Seq::<u8>::empty());
            let ghost mid = out@;
            while i < r.route.public_keys.len()
                invariant
                    i <= r.route.public_keys.len(),
                    route_view.len() == r.route.public_keys@.len(),
                    forall|j: int|
                        0 <= j < route_view.len() ==> route_view[j] == r.route.public_keys@[j]@,
                    out@ == mid + concat_bytes(route_view.take(i as int)),
                decreases r.route.public_keys.len() - i,
            {
                let ghost before = out@;
                push_bytes(out, &r.route.public_keys[i].bytes);
                proof {
                    lemma_concat_bytes_take(route_view, i as int);
                    assert(out@ =~= mid + concat_bytes(route_view.take(i + 1)));
                }
                i = i + 1;
            }
            assert(route_view.take(route_view.len() as int) =~= route_view);
            push_u128_be(out, r.dest_payment);
            push_u128_be(out, r.total_dest_payment);
            push_bytes(out, &r.invoice_id.bytes);
            push_u128_be(out, r.left_fees);
            assert(out@ =~= orig + canonical_op(op@));
        },
        FriendTcOp::ResponseSendFunds(r) => {
            out.push(4);
            push_bytes(out, &r.request_id.bytes);
            push_bytes(out, &r.dest_hashed_lock.bytes);
            push_bytes(out, &r.rand_nonce.bytes);
            push_bytes(out, &r.signature.bytes);
            assert(out@ =~= orig + canonical_op(op@));
        },
        FriendTcOp::CancelSendFunds(c) => {
            out.push(5);
            push_bytes(out, &c.request_id.bytes);
            assert(out@ =~= orig + canonical_op(op@));
        },
        FriendTcOp::CollectSendFunds(c) => {
            out.push(6);
            push_bytes(out, &c.request_id.bytes);
            push_bytes(out, &c.src_plain_lock.bytes);
            push_bytes(out, &c.dest_plain_lock.bytes);
            assert(out@ =~= orig + canonical_op(op@));
        },
    }
}

/// The canonical encoding of an operation list: a 64 bit count followed by
/// each operation's canonical bytes.
pub open spec fn canonical_ops(ops: Seq<FriendTcOpView>) -> Seq<u8> {
    u64_be(ops.len() as u64) + concat_bytes(ops.map_values(|op: FriendTcOpView| canonical_op(op)))
}

/// Append the canonical encoding of an operation list.
pub fn push_canonical_ops(out: &mut Vec<u8>, operations: &Vec<FriendTcOp>)
    ensures
        final(out)@ == old(out)@ + canonical_ops(operations@.map_values(|op: FriendTcOp| op@)),
{
    let ghost orig = out@;
    let n = operations.len();
    push_u64_be(out, n as u64);
    let ghost opviews = operations@.map_values(|op: FriendTcOp| op@);
    let ghost encoded = opviews.map_values(|op: FriendTcOpView| canonical_op(op));
    let ghost mid = out@;
    let mut i: usize = 0;
    assert(concat_bytes(encoded.take(0)) =~= Seq::<u8>::empty());
    while i < operations.len()
        invariant
            i <= operations.len(),
            operations@.len() == opviews.len(),
            operations@.len() == encoded.len(),
            forall|j: int| 0 <= j < encoded.len() ==> encoded[j] == canonical_op(operations@[j]@),
            out@ == mid + concat_bytes(encoded.take(i as int)),
        decreases operations.len() - i,
    {
        let ghost before = out@;
        push_canonical_op(out, &operations[i]);
        proof {
            lemma_concat_bytes_take(encoded, i as int);
            assert(out@ =~= mid + concat_bytes(encoded.take(i + 1)));
        }
        i = i + 1;
    }
    assert(encoded.take(operations@.len() as int) =~= encoded);
    assert(out@ =~= orig + canonical_ops(opviews));
}

// ---------------------------------------------------------------------------
// Signature buffers
// ---------------------------------------------------------------------------

/// The buffer signed by the destination of a request: it mixes fields of
/// the response with fields of the original request.
pub open spec fn response_signature_buffer(
    response: ResponseSendFundsOpView,
    pending: PendingTransactionView,
) -> Seq<u8> {
    sha512_256_of(funds_response_prefix()) + sha512_256_of(pending.request_id + response.rand_nonce)
        + pending.src_hashed_lock + response.dest_hashed_lock + u128_be(pending.dest_payment)
        + u128_be(pending.total_dest_payment) + pending.invoice_id + canonical_currency(
        pending.currency,
    )
}

/// Create the buffer we sign over for a response.
/// The signed buffer also contains information from the request.
pub fn create_response_signature_buffer(
    response_send_funds: &ResponseSendFundsOp,
    pending_transaction: &PendingTransaction,
) -> (r: Vec<u8>)
    ensures
        r@ == response_signature_buffer(response_send_funds@, pending_transaction@),
{
    let mut sbuffer: Vec<u8> = Vec::new();
    let mut prefix: Vec<u8> = Vec::new();
    push_funds_response_prefix(&mut prefix);
    let prefix_digest = sha_512_256(&prefix);
    push_bytes(&mut sbuffer, &prefix_digest.bytes);

    let mut inner_blob: Vec<u8> = Vec::new();
    push_bytes(&mut inner_blob, &pending_transaction.request_id.bytes);
    push_bytes(&mut inner_blob, &response_send_funds.rand_nonce.bytes);
    let inner_digest = sha_512_256(&inner_blob);
    push_bytes(&mut sbuffer, &inner_digest.bytes);

    push_bytes(&mut sbuffer, &pending_transaction.src_hashed_lock.bytes);
    push_bytes(&mut sbuffer, &response_send_funds.dest_hashed_lock.bytes);
    push_u128_be(&mut sbuffer, pending_transaction.dest_payment);
    push_u128_be(&mut sbuffer, pending_transaction.total_dest_payment);
    push_bytes(&mut sbuffer, &pending_transaction.invoice_id.bytes);
    push_canonical_currency(&mut sbuffer, &pending_transaction.currency.bytes);
    assert(sbuffer@ =~= response_signature_buffer(response_send_funds@, pending_transaction@));
    sbuffer
}

/// The digest of a move token's operation list.
pub open spec fn operations_hash_spec(operations: Seq<FriendTcOpView>) -> Seq<u8> {
    sha512_256_of(canonical_ops(operations))
}

/// Combine all operations of a move token into one hash value.
pub fn operations_hash(move_token: &MoveToken) -> (r: HashResult)
    ensures
        r@ == operations_hash_spec(move_token@.operations),
{
    let mut operations_data: Vec<u8> = Vec::new();
    push_canonical_ops(&mut operations_data, &move_token.operations);
    sha_512_256(&operations_data)
}

/// The digest of a move token's advertised relay list.
pub open spec fn local_address_hash_spec(opt_relays: Option<Seq<RelayAddressView>>) -> Seq<u8> {
    sha512_256_of(canonical_opt_relays(opt_relays))
}

/// Hash the advertised relay list of a move token.
pub fn local_address_hash(move_token: &MoveToken) -> (r: HashResult)
    requires
        match move_token.opt_local_relays {
            Some(v) => v@.len() <= u32::MAX && forall|i: int|
                0 <= i < v@.len() ==> (#[trigger] v@[i])@.address.len() <= u32::MAX,
            None => true,
        },
    ensures
        r@ == local_address_hash_spec(move_token@.opt_local_relays),
{
    let mut data: Vec<u8> = Vec::new();
    push_canonical_opt_relays(&mut data, &move_token.opt_local_relays);
    sha_512_256(&data)
}

/// The canonical bytes of a token channel summary.
pub open spec fn token_info_buffer(info: TokenInfoView) -> Seq<u8> {
    info.local_public_key + info.remote_public_key + u64_be(info.inconsistency_counter) + u128_be(
        info.move_token_counter,
    ) + i128_be(info.balance) + u128_be(info.local_pending_debt) + u128_be(
        info.remote_pending_debt,
    )
}

/// The digest of a token channel summary, carried as `info_hash`.
pub open spec fn hash_token_info_spec(info: TokenInfoView) -> Seq<u8> {
    sha512_256_of(token_info_buffer(info))
}

/// Hash a token channel summary.
pub fn hash_token_info(token_info: &TokenInfo) -> (r: HashResult)
    ensures
        r@ == hash_token_info_spec(token_info@),
{
    let mut hash_buff: Vec<u8> = Vec::new();
    push_bytes(&mut hash_buff, &token_info.local_public_key.bytes);
    push_bytes(&mut hash_buff, &token_info.remote_public_key.bytes);
    push_u64_be(&mut hash_buff, token_info.inconsistency_counter);
    push_u128_be(&mut hash_buff, token_info.move_token_counter);
    push_i128_be(&mut hash_buff, token_info.balance);
    push_u128_be(&mut hash_buff, token_info.local_pending_debt);
    push_u128_be(&mut hash_buff, token_info.remote_pending_debt);
    assert(hash_buff@ =~= token_info_buffer(token_info@));
    sha_512_256(&hash_buff)
}

/// The chain hash over a move token's operations and relay list.
pub open spec fn prefix_hash_spec(
    old_token: Seq<u8>,
    operations: Seq<FriendTcOpView>,
    opt_relays: Option<Seq<RelayAddressView>>,
) -> Seq<u8> {
    sha512_256_of(old_token + canonical_ops(operations) + canonical_opt_relays(opt_relays))
}

/// Hash a move token's operations and advertised relays, chained to the
/// previous token.
pub fn prefix_hash(move_token: &MoveToken) -> (r: HashResult)
    requires
        match move_token.opt_local_relays {
            Some(v) => v@.len() <= u32::MAX && forall|i: int|
                0 <= i < v@.len() ==> (#[trigger] v@[i])@.address.len() <= u32::MAX,
            None => true,
        },
    ensures
        r@ == prefix_hash_spec(
            move_token@.old_token,
            move_token@.operations,
            move_token@.opt_local_relays,
        ),
{
    let mut hash_buff: Vec<u8> = Vec::new();
    push_bytes(&mut hash_buff, &move_token.old_token.bytes);
    push_canonical_ops(&mut hash_buff, &move_token.operations);
    push_canonical_opt_relays(&mut hash_buff, &move_token.opt_local_relays);
    assert(hash_buff@ =~= move_token@.old_token + canonical_ops(move_token@.operations)
        + canonical_opt_relays(move_token@.opt_local_relays));
    sha_512_256(&hash_buff)
}

/// Hash an unsigned move token's operations and advertised relays.
pub fn unsigned_prefix_hash(move_token: &UnsignedMoveToken) -> (r: HashResult)
    requires
        match move_token.opt_local_relays {
            Some(v) => v@.len() <= u32::MAX && forall|i: int|
                0 <= i < v@.len() ==> (#[trigger] v@[i])@.address.len() <= u32::MAX,
            None => true,
        },
    ensures
        r@ == prefix_hash_spec(
            move_token@.old_token,
            move_token@.operations,
            move_token@.opt_local_relays,
        ),
{
    let mut hash_buff: Vec<u8> = Vec::new();
    push_bytes(&mut hash_buff, &move_token.old_token.bytes);
    push_canonical_ops(&mut hash_buff, &move_token.operations);
    push_canonical_opt_relays(&mut hash_buff, &move_token.opt_local_relays);
    assert(hash_buff@ =~= move_token@.old_token + canonical_ops(move_token@.operations)
        + canonical_opt_relays(move_token@.opt_local_relays));
    sha_512_256(&hash_buff)
}

/// The buffer whose signature becomes a move token's `new_token`.
pub open spec fn move_token_signature_buffer(
    old_token: Seq<u8>,
    operations: Seq<FriendTcOpView>,
    opt_relays: Option<Seq<RelayAddressView>>,
    info_hash: Seq<u8>,
    rand_nonce: Seq<u8>,
) -> Seq<u8> {
    sha512_256_of(token_next_prefix()) + prefix_hash_spec(old_token, operations, opt_relays)
        + info_hash + rand_nonce
}

/// The signature buffer of a signed move token.
pub open spec fn move_token_signature_buffer_of(mt: MoveTokenView) -> Seq<u8> {
    move_token_signature_buffer(
        mt.old_token,
        mt.operations,
        mt.opt_local_relays,
        mt.info_hash,
        mt.rand_nonce,
    )
}

/// Build the buffer that is signed to produce a move token's `new_token`.
pub fn move_token_signature_buff(move_token: &MoveToken) -> (r: Vec<u8>)
    requires
        match move_token.opt_local_relays {
            Some(v) => v@.len() <= u32::MAX && forall|i: int|
                0 <= i < v@.len() ==> (#[trigger] v@[i])@.address.len() <= u32::MAX,
            None => true,
        },
    ensures
        r@ == move_token_signature_buffer_of(move_token@),
{
    let mut sig_buffer: Vec<u8> = Vec::new();
    let mut prefix: Vec<u8> = Vec::new();
    push_token_next_prefix(&mut prefix);
    let prefix_digest = sha_512_256(&prefix);
    push_bytes(&mut sig_buffer, &prefix_digest.bytes);
    let chain = prefix_hash(move_token);
    push_bytes(&mut sig_buffer, &chain.bytes);
    push_bytes(&mut sig_buffer, &move_token.info_hash.bytes);
    push_bytes(&mut sig_buffer, &move_token.rand_nonce.bytes);
    assert(sig_buffer@ =~= move_token_signature_buffer_of(move_token@));
    sig_buffer
}

/// Build the signature buffer of a move token that is not signed yet.
pub fn unsigned_move_token_signature_buff(move_token: &UnsignedMoveToken) -> (r: Vec<u8>)
    requires
        match move_token.opt_local_relays {
            Some(v) => v@.len() <= u32::MAX && forall|i: int|
                0 <= i < v@.len() ==> (#[trigger] v@[i])@.address.len() <= u32::MAX,
            None => true,
        },
    ensures
        r@ == move_token_signature_buffer(
            move_token@.old_token,
            move_token@.operations,
            move_token@.opt_local_relays,
            move_token@.info_hash,
            move_token@.rand_nonce,
        ),
{
    let mut sig_buffer: Vec<u8> = Vec::new();
    let mut prefix: Vec<u8> = Vec::new();
    push_token_next_prefix(&mut prefix);
    let prefix_digest = sha_512_256(&prefix);
    push_bytes(&mut sig_buffer, &prefix_digest.bytes);
    let chain = unsigned_prefix_hash(move_token);
    push_bytes(&mut sig_buffer, &chain.bytes);
    push_bytes(&mut sig_buffer, &move_token.info_hash.bytes);
    push_bytes(&mut sig_buffer, &move_token.rand_nonce.bytes);
    assert(sig_buffer@ =~= move_token_signature_buffer(
        move_token@.old_token,
        move_token@.operations,
        move_token@.opt_local_relays,
        move_token@.info_hash,
        move_token@.rand_nonce,
    ));
    sig_buffer
}

/// The buffer used to derive a reset token from the last valid token.
pub open spec fn reset_token_buffer(new_token: Seq<u8>, balance_for_reset: i128) -> Seq<u8> {
    sha512_256_of(token_reset_prefix()) + new_token + i128_be(balance_for_reset)
}

/// Build the buffer a reset token is derived from.
pub fn create_reset_token_buffer(new_token: &crate::crypto::Signature, balance_for_reset: i128) -> (r:
    Vec<u8>)
    ensures
        r@ == reset_token_buffer(new_token@, balance_for_reset),
{
    let mut buff: Vec<u8> = Vec::new();
    let mut prefix: Vec<u8> = Vec::new();
    push_token_reset_prefix(&mut prefix);
    let prefix_digest = sha_512_256(&prefix);
    push_bytes(&mut buff, &prefix_digest.bytes);
    push_bytes(&mut buff, &new_token.bytes);
    push_i128_be(&mut buff, balance_for_reset);
    assert(buff@ =~= reset_token_buffer(new_token@, balance_for_reset));
    buff
}

/// The buffer both peers derive a fresh channel's seed token from.
pub open spec fn init_token_buffer(first_hash: Seq<u8>, second_hash: Seq<u8>) -> Seq<u8> {
    sha512_256_of(token_init_prefix()) + first_hash + second_hash
}

/// Build the buffer a fresh channel's seed token is derived from; the two
/// hashes are the peers' public key digests in lexicographic order, so both
/// sides derive the same seed.
pub fn create_init_token_buffer(first_hash: &HashResult, second_hash: &HashResult) -> (r: Vec<u8>)
    ensures
        r@ == init_token_buffer(first_hash@, second_hash@),
{
    let mut buff: Vec<u8> = Vec::new();
    let mut prefix: Vec<u8> = Vec::new();
    push_token_init_prefix(&mut prefix);
    let prefix_digest = sha_512_256(&prefix);
    push_bytes(&mut buff, &prefix_digest.bytes);
    push_bytes(&mut buff, &first_hash.bytes);
    push_bytes(&mut buff, &second_hash.bytes);
    assert(buff@ =~= init_token_buffer(first_hash@, second_hash@));
    buff
}

} // verus!
