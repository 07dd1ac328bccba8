//! Signature checks over the canonical buffers: receipts, commits,
//! multi-route commit sets and move tokens.

use vstd::prelude::*;

use crate::crypto::{
    PublicKey, hash_lock_of, sha_512_256, sha512_256_of, signature_valid, verify_signature,
};
use crate::messages::{Commit, CommitView, MoveToken, MultiCommit, MultiCommitView, Receipt, ReceiptView};
use crate::serialize::{push_bytes, push_u128_be, u128_be};
use crate::signature_buff::{
    canonical_currency, funds_response_prefix, move_token_signature_buffer_of,
    move_token_signature_buff, push_canonical_currency, push_funds_response_prefix,
};

verus! {

/// The buffer a seller signs to issue a receipt.
pub open spec fn receipt_signature_buffer(receipt: ReceiptView) -> Seq<u8> {
    sha512_256_of(funds_response_prefix()) + receipt.response_hash + hash_lock_of(
        receipt.src_plain_lock,
    ) + hash_lock_of(receipt.dest_plain_lock) + u128_be(receipt.dest_payment) + u128_be(
        receipt.total_dest_payment,
    ) + receipt.invoice_id + canonical_currency(receipt.currency)
}

/// Build the buffer a seller signs to issue a receipt.
pub fn create_receipt_signature_buffer(receipt: &Receipt) -> (r: Vec<u8>)
    ensures
        r@ == receipt_signature_buffer(receipt@),
{
    let mut data: Vec<u8> = Vec::new();
    let mut prefix: Vec<u8> = Vec::new();
    push_funds_response_prefix(&mut prefix);
    let prefix_digest = sha_512_256(&prefix);
    push_bytes(&mut data, &prefix_digest.bytes);
    push_bytes(&mut data, &receipt.response_hash.bytes);
    let src_lock_hash = receipt.src_plain_lock.hash_lock();
    push_bytes(&mut data, &src_lock_hash.bytes);
    let dest_lock_hash = receipt.dest_plain_lock.hash_lock();
    push_bytes(&mut data, &dest_lock_hash.bytes);
    push_u128_be(&mut data, receipt.dest_payment);
    push_u128_be(&mut data, receipt.total_dest_payment);
    push_bytes(&mut data, &receipt.invoice_id.bytes);
    push_canonical_currency(&mut data, &receipt.currency.bytes);
    assert(data@ =~= receipt_signature_buffer(receipt@));
    data
}

/// Build the buffer a seller signs for one commit of an invoice.
pub fn create_commit_signature_buffer(
    commit: &Commit,
    invoice_id: &crate::crypto::InvoiceId,
    currency: &crate::crypto::Currency,
    total_dest_payment: u128,
) -> (r: Vec<u8>)
    ensures
        r@ == commit_signature_buffer(commit@, invoice_id@, currency@, total_dest_payment),
{
    let mut data: Vec<u8> = Vec::new();
    let mut prefix: Vec<u8> = Vec::new();
    push_funds_response_prefix(&mut prefix);
    let prefix_digest = sha_512_256(&prefix);
    push_bytes(&mut data, &prefix_digest.bytes);
    push_bytes(&mut data, &commit.response_hash.bytes);
    let src_lock_hash = commit.src_plain_lock.hash_lock();
    push_bytes(&mut data, &src_lock_hash.bytes);
    push_bytes(&mut data, &commit.dest_hashed_lock.bytes);
    push_u128_be(&mut data, commit.dest_payment);
    push_u128_be(&mut data, total_dest_payment);
    push_bytes(&mut data, &invoice_id.bytes);
    push_canonical_currency(&mut data, &currency.bytes);
    assert(data@ =~= commit_signature_buffer(commit@, invoice_id@, currency@, total_dest_payment));
    data
}

/// Verify that a given receipt's signature is valid.
pub fn verify_receipt(receipt: &Receipt, public_key: &PublicKey) -> (r: bool)
    ensures
        r == signature_valid(receipt_signature_buffer(receipt@), public_key@, receipt@.signature),
{
    let mut data: Vec<u8> = Vec::new();
    let mut prefix: Vec<u8> = Vec::new();
    push_funds_response_prefix(&mut prefix);
    let prefix_digest = sha_512_256(&prefix);
    push_bytes(&mut data, &prefix_digest.bytes);
    push_bytes(&mut data, &receipt.response_hash.bytes);
    let src_lock_hash = receipt.src_plain_lock.hash_lock();
    push_bytes(&mut data, &src_lock_hash.bytes);
    let dest_lock_hash = receipt.dest_plain_lock.hash_lock();
    push_bytes(&mut data, &dest_lock_hash.bytes);
    push_u128_be(&mut data, receipt.dest_payment);
    push_u128_be(&mut data, receipt.total_dest_payment);
    push_bytes(&mut data, &receipt.invoice_id.bytes);
    push_canonical_currency(&mut data, &receipt.currency.bytes);
    assert(data@ =~= receipt_signature_buffer(receipt@));
    verify_signature(&data, public_key, &receipt.signature)
}

/// The buffer a seller signs for one commit of an invoice.
pub open spec fn commit_signature_buffer(
    commit: CommitView,
    invoice_id: Seq<u8>,
    currency: Seq<u8>,
    total_dest_payment: u128,
) -> Seq<u8> {
    sha512_256_of(funds_response_prefix()) + commit.response_hash + hash_lock_of(
        commit.src_plain_lock,
    ) + commit.dest_hashed_lock + u128_be(commit.dest_payment) + u128_be(total_dest_payment)
        + invoice_id + canonical_currency(currency)
}

/// A single commit is valid for an invoice when its signature checks out.
pub open spec fn commit_valid(
    commit: CommitView,
    invoice_id: Seq<u8>,
    currency: Seq<u8>,
    total_dest_payment: u128,
    public_key: Seq<u8>,
) -> bool {
    signature_valid(
        commit_signature_buffer(commit, invoice_id, currency, total_dest_payment),
        public_key,
        commit.signature,
    )
}

/// Verify that a given commit signature is valid.
fn verify_commit(
    commit: &Commit,
    invoice_id: &crate::crypto::InvoiceId,
    currency: &crate::crypto::Currency,
    total_dest_payment: u128,
    local_public_key: &PublicKey,
) -> (r: bool)
    ensures
        r == commit_valid(
            commit@,
            invoice_id@,
            currency@,
            total_dest_payment,
            local_public_key@,
        ),
{
    let mut data: Vec<u8> = Vec::new();
    let mut prefix: Vec<u8> = Vec::new();
    push_funds_response_prefix(&mut prefix);
    let prefix_digest = sha_512_256(&prefix);
    push_bytes(&mut data, &prefix_digest.bytes);
    push_bytes(&mut data, &commit.response_hash.bytes);
    let src_lock_hash = commit.src_plain_lock.hash_lock();
    push_bytes(&mut data, &src_lock_hash.bytes);
    push_bytes(&mut data, &commit.dest_hashed_lock.bytes);
    push_u128_be(&mut data, commit.dest_payment);
    push_u128_be(&mut data, total_dest_payment);
    push_bytes(&mut data, &invoice_id.bytes);
    push_canonical_currency(&mut data, &currency.bytes);
    assert(data@ =~= commit_signature_buffer(commit@, invoice_id@, currency@, total_dest_payment));
    verify_signature(&data, local_public_key, &commit.signature)
}

/// The sum of the destination payments of a commit list.
pub open spec fn sum_commits(s: Seq<CommitView>) -> int
    decreases s.len(),
{
    if s.len() == 0 {
        0
    } else {
        s[0].dest_payment + sum_commits(s.skip(1))
    }
}

/// Taking one more commit adds its payment to the prefix sum.
pub proof fn lemma_sum_commits_take(s: Seq<CommitView>, i: int)
    requires
        0 <= i < s.len(),
    ensures
        sum_commits(s.take(i + 1)) == sum_commits(s.take(i)) + s[i].dest_payment,
    decreases i,
{
    if i == 0 {
        assert(s.take(1).skip(1) =~= Seq::<CommitView>::empty());
        assert(s.take(0) =~= Seq::<CommitView>::empty());
        assert(s.take(1)[0] == s[0]);
    } else {
        lemma_sum_commits_take(s.skip(1), i - 1);
        assert(s.take(i + 1).skip(1) =~= s.skip(1).take(i));
        assert(s.take(i).skip(1) =~= s.skip(1).take(i - 1));
        assert(s.take(i + 1)[0] == s[0]);
        assert(s.take(i)[0] == s[0]);
        assert(s.skip(1)[i - 1] == s[i]);
    }
}

/// A prefix sum never exceeds the whole sum.
pub proof fn lemma_sum_commits_prefix_le(s: Seq<CommitView>, i: int)
    requires
        0 <= i <= s.len(),
    ensures
        sum_commits(s.take(i)) <= sum_commits(s),
    decreases s.len() - i,
{
    if i == s.len() {
        assert(s.take(i) =~= s);
    } else {
        lemma_sum_commits_take(s, i);
        lemma_sum_commits_prefix_le(s, i + 1);
    }
}

/// A multi-commit is accepted when every commit signature is valid and the
/// destination payments add up exactly to the stated total.
pub open spec fn multi_commit_valid(m: MultiCommitView, public_key: Seq<u8>) -> bool {
    &&& forall|i: int|
        0 <= i < m.commits.len() ==> commit_valid(
            #[trigger] m.commits[i],
            m.invoice_id,
            m.currency,
            m.total_dest_payment,
            public_key,
        )
    &&& sum_commits(m.commits) == m.total_dest_payment
}

/// Verify that all the commits inside a multi-commit are valid and that
/// their payments add up to the multi-commit's total.
pub fn verify_multi_commit(multi_commit: &MultiCommit, local_public_key: &PublicKey) -> (r: bool)
    ensures
        r == multi_commit_valid(multi_commit@, local_public_key@),
{
    let ghost commits_view = multi_commit.commits@.map_values(|c: Commit| c@);
    proof {
        assert(multi_commit@.commits =~= commits_view);
    }
    let mut i: usize = 0;
    while i < multi_commit.commits.len()
        invariant
            i <= multi_commit.commits.len(),
            commits_view == multi_commit@.commits,
            commits_view.len() == multi_commit.commits@.len(),
            forall|j: int|
                0 <= j < commits_view.len() ==> commits_view[j] == multi_commit.commits@[j]@,
            forall|j: int|
                0 <= j < i ==> commit_valid(
                    #[trigger] commits_view[j],
                    multi_commit.invoice_id@,
                    multi_commit.currency@,
                    multi_commit.total_dest_payment,
                    local_public_key@,
                ),
        decreases multi_commit.commits.len() - i,
    {
        let ok = verify_commit(
            &multi_commit.commits[i],
            &multi_commit.invoice_id,
            &multi_commit.currency,
            multi_commit.total_dest_payment,
            local_public_key,
        );
        if !ok {
            assert(!commit_valid(
                commits_view[i as int],
                multi_commit.invoice_id@,
                multi_commit.currency@,
                multi_commit.total_dest_payment,
                local_public_key@,
            ));
            return false;
        }
        i = i + 1;
    }

    // Check if the credits add up:
    let mut sum_credits: u128 = 0;
    let mut j: usize = 0;
    assert(sum_commits(commits_view.take(0)) == 0);
    while j < multi_commit.commits.len()
        invariant
            j <= multi_commit.commits.len(),
            commits_view == multi_commit@.commits,
            commits_view.len() == multi_commit.commits@.len(),
            forall|k: int|
                0 <= k < commits_view.len() ==> commits_view[k] == multi_commit.commits@[k]@,
            sum_credits == sum_commits(commits_view.take(j as int)),
        decreases multi_commit.commits.len() - j,
    {
        let c = multi_commit.commits[j].dest_payment;
        proof {
            lemma_sum_commits_take(commits_view, j as int);
            assert(commits_view[j as int].dest_payment == c);
        }
        if sum_credits > u128::MAX - c {
            // The real sum exceeds the representable range, so it can not
            // equal the stated total.
            proof {
                lemma_sum_commits_prefix_le(commits_view, j + 1);
                assert(sum_commits(commits_view) > u128::MAX);
            }
            return false;
        }
        sum_credits = sum_credits + c;
        j = j + 1;
    }
    assert(commits_view.take(multi_commit.commits@.len() as int) =~= commits_view);
    sum_credits == multi_commit.total_dest_payment
}

/// Verify that `new_token` is a valid signature over the rest of a move
/// token's fields.
pub fn verify_move_token(move_token: &MoveToken, public_key: &PublicKey) -> (r: bool)
    requires
        match move_token.opt_local_relays {
            Some(v) => v@.len() <= u32::MAX && forall|i: int|
                0 <= i < v@.len() ==> (#[trigger] v@[i])@.address.len() <= u32::MAX,
            None => true,
        },
    ensures
        r == signature_valid(
            move_token_signature_buffer_of(move_token@),
            public_key@,
            move_token@.new_token,
        ),
{
    let sig_buffer = move_token_signature_buff(move_token);
    verify_signature(&sig_buffer, public_key, &move_token.new_token)
}

} // verus!
