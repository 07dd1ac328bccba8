//! Fixed-size byte identifiers and the cryptographic primitives the
//! protocol relies on: sha512/256 digests, ed25519 signatures and
//! commit-reveal hash locks.
//!
//! The digest and signature computations themselves are performed by the
//! `sha2` and `ed25519-dalek` crates; their results are named by
//! uninterpreted spec functions, and everything built on top of them is
//! verified against those names.

use vstd::prelude::*;
use ed25519_dalek::Signer;
use ed25519_dalek::Verifier;
use sha2::Digest;

verus! {

pub const PUBLIC_KEY_LEN: usize = 32;
pub const PRIVATE_KEY_LEN: usize = 32;
pub const SIGNATURE_LEN: usize = 64;
pub const HASH_RESULT_LEN: usize = 32;
pub const UID_LEN: usize = 16;
pub const INVOICE_ID_LEN: usize = 32;
pub const PAYMENT_ID_LEN: usize = 16;
pub const RAND_VALUE_LEN: usize = 16;
pub const PLAIN_LOCK_LEN: usize = 32;
pub const HASHED_LOCK_LEN: usize = 32;
pub const MAX_CURRENCY_LEN: usize = 16;

/// What `sha2::Sha512_256::digest` returns for a given input.
pub uninterp spec fn sha512_256_of(data: Seq<u8>) -> Seq<u8>;

/// Whether `ed25519_dalek::VerifyingKey::verify` accepts `signature` over
/// `data` under `public_key`.
pub uninterp spec fn signature_valid(data: Seq<u8>, public_key: Seq<u8>, signature: Seq<u8>) -> bool;

/// What `ed25519_dalek::SigningKey::sign` returns (ed25519 signing is
/// deterministic) for a message and a private key.
pub uninterp spec fn sign_of(data: Seq<u8>, private_key: Seq<u8>) -> Seq<u8>;

/// What `ed25519_dalek::SigningKey::verifying_key` returns for a private key.
pub uninterp spec fn public_of(private_key: Seq<u8>) -> Seq<u8>;

/// Relies on sha2's `Sha512_256::digest`: a 32 byte digest that depends on
/// the input bytes alone.
#[verifier::external_body]
fn sha2_digest(data: &Vec<u8>) -> (r: Vec<u8>)
    ensures
        r@ == sha512_256_of(data@),
        r@.len() == HASH_RESULT_LEN,
{
    sha2::Sha512_256::digest(data.as_slice()).to_vec()
}

/// Relies on ed25519-dalek's `VerifyingKey::verify`: acceptance depends on
/// the message, key and signature bytes alone. A key or signature of the
/// wrong shape is rejected by `from_bytes` / `from_slice`, which is itself
/// a function of those bytes.
#[verifier::external_body]
fn ed25519_verify(data: &Vec<u8>, public_key: &Vec<u8>, signature: &Vec<u8>) -> (r: bool)
    ensures
        r == signature_valid(data@, public_key@, signature@),
{
    let pk_arr: [u8; 32] = match public_key.as_slice().try_into() {
        Ok(arr) => arr,
        Err(_) => return false,
    };
    let vk = match ed25519_dalek::VerifyingKey::from_bytes(&pk_arr) {
        Ok(vk) => vk,
        Err(_) => return false,
    };
    let sig = match ed25519_dalek::Signature::from_slice(signature.as_slice()) {
        Ok(sig) => sig,
        Err(_) => return false,
    };
    vk.verify(data.as_slice(), &sig).is_ok()
}

/// Relies on ed25519-dalek's `SigningKey::sign` (deterministic, RFC 8032),
/// and on its documented guarantee that a produced signature is accepted by
/// `verify` under the corresponding verifying key.
#[verifier::external_body]
fn ed25519_sign(data: &Vec<u8>, private_key: &Vec<u8>) -> (r: Vec<u8>)
    requires
        private_key@.len() == PRIVATE_KEY_LEN,
    ensures
        r@ == sign_of(data@, private_key@),
        r@.len() == SIGNATURE_LEN,
        signature_valid(data@, public_of(private_key@), r@),
{
    let arr: [u8; 32] = private_key.as_slice().try_into().unwrap();
    let sk = ed25519_dalek::SigningKey::from_bytes(&arr);
    sk.sign(data.as_slice()).to_bytes().to_vec()
}

/// Relies on ed25519-dalek's `SigningKey::verifying_key` followed by
/// `VerifyingKey::to_bytes`: the public key derived from a private key.
#[verifier::external_body]
fn ed25519_public(private_key: &Vec<u8>) -> (r: Vec<u8>)
    requires
        private_key@.len() == PRIVATE_KEY_LEN,
    ensures
        r@ == public_of(private_key@),
        r@.len() == PUBLIC_KEY_LEN,
{
    let arr: [u8; 32] = private_key.as_slice().try_into().unwrap();
    ed25519_dalek::SigningKey::from_bytes(&arr).verifying_key().to_bytes().to_vec()
}

/// Copy a byte vector element by element.
pub fn clone_bytes(v: &Vec<u8>) -> (r: Vec<u8>)
    ensures
        r@ == v@,
{
    let mut out: Vec<u8> = Vec::new();
    let mut i: usize = 0;
    while i < v.len()
        invariant
            i <= v.len(),
            out@ == v@.subrange(0, i as int),
        decreases v.len() - i,
    {
        out.push(v[i]);
        i = i + 1;
    }
    assert(out@ =~= v@);
    out
}

/// Compare two byte vectors for equality.
pub fn bytes_eq(a: &Vec<u8>, b: &Vec<u8>) -> (r: bool)
    ensures
        r == (a@ == b@),
{
    if a.len() != b.len() {
        assert(a@ != b@) by {
            assert(a@.len() != b@.len());
        }
        return false;
    }
    let mut i: usize = 0;
    while i < a.len()
        invariant
            i <= a.len(),
            a@.len() == b@.len(),
            forall|j: int| 0 <= j < i ==> a@[j] == b@[j],
        decreases a.len() - i,
    {
        if a[i] != b[i] {
            return false;
        }
        i = i + 1;
    }
    assert(a@ =~= b@);
    true
}

/// Strict lexicographic order on byte sequences.
pub open spec fn lex_lt(a: Seq<u8>, b: Seq<u8>) -> bool
    decreases a.len(),
{
    if b.len() == 0 {
        false
    } else if a.len() == 0 {
        true
    } else if a[0] != b[0] {
        a[0] < b[0]
    } else {
        lex_lt(a.skip(1), b.skip(1))
    }
}

/// Decide the strict lexicographic order of two byte vectors.
pub fn bytes_lt(a: &Vec<u8>, b: &Vec<u8>) -> (r: bool)
    ensures
        r == lex_lt(a@, b@),
{
    let mut i: usize = 0;
    assert(a@.skip(0) =~= a@);
    assert(b@.skip(0) =~= b@);
    loop
        invariant
            i <= a.len(),
            i <= b.len(),
            forall|j: int| 0 <= j < i ==> a@[j] == b@[j],
            lex_lt(a@, b@) == lex_lt(a@.skip(i as int), b@.skip(i as int)),
        decreases a.len() - i,
    {
        if i == b.len() {
            assert(b@.skip(i as int).len() == 0);
            return false;
        }
        if i == a.len() {
            assert(a@.skip(i as int).len() == 0);
            assert(b@.skip(i as int).len() > 0);
            return true;
        }
        let av = a[i];
        let bv = b[i];
        assert(a@.skip(i as int)[0] == a@[i as int]);
        assert(b@.skip(i as int)[0] == b@[i as int]);
        if av != bv {
            return av < bv;
        }
        assert(a@.skip(i as int).skip(1) =~= a@.skip(i + 1));
        assert(b@.skip(i as int).skip(1) =~= b@.skip(i + 1));
        i = i + 1;
    }
}

// The protocol's fixed-size byte identifiers. Each one wraps a byte vector,
// views as the byte sequence, and compares by content.

#[derive(Debug)]
pub struct PublicKey {
    pub bytes: Vec<u8>,
}

#[derive(Debug)]
pub struct PrivateKey {
    pub bytes: Vec<u8>,
}

#[derive(Debug)]
pub struct Signature {
    pub bytes: Vec<u8>,
}

#[derive(Debug)]
pub struct Uid {
    pub bytes: Vec<u8>,
}

#[derive(Debug)]
pub struct InvoiceId {
    pub bytes: Vec<u8>,
}

#[derive(Debug)]
pub struct PaymentId {
    pub bytes: Vec<u8>,
}

#[derive(Debug)]
pub struct RandValue {
    pub bytes: Vec<u8>,
}

#[derive(Debug)]
pub struct HashResult {
    pub bytes: Vec<u8>,
}

#[derive(Debug)]
pub struct HashedLock {
    pub bytes: Vec<u8>,
}

#[derive(Debug)]
pub struct PlainLock {
    pub bytes: Vec<u8>,
}

/// An opt-in short currency identifier (bounded ASCII name).
#[derive(Debug)]
pub struct Currency {
    pub bytes: Vec<u8>,
}

/// A network address, kept as opaque bytes.
#[derive(Debug)]
pub struct NetAddress {
    pub bytes: Vec<u8>,
}

impl View for PublicKey {
    type V = Seq<u8>;

    open spec fn view(&self) -> Seq<u8> {
        self.bytes@
    }
}

impl Clone for PublicKey {
    fn clone(&self) -> (r: Self)
        ensures
            r@ == self@,
    {
        PublicKey { bytes: clone_bytes(&self.bytes) }
    }
}

impl PartialEq for PublicKey {
    fn eq(&self, other: &Self) -> (r: bool) {
        bytes_eq(&self.bytes, &other.bytes)
    }
}

impl Eq for PublicKey {}

impl vstd::std_specs::cmp::PartialEqSpecImpl for PublicKey {
    open spec fn obeys_eq_spec() -> bool {
        true
    }

    open spec fn eq_spec(&self, other: &Self) -> bool {
        self@ == other@
    }
}

impl PublicKey {
    pub fn from_bytes(bytes: Vec<u8>) -> (r: Self)
        ensures
            r@ == bytes@,
    {
        PublicKey { bytes }
    }
}

impl View for PrivateKey {
    type V = Seq<u8>;

    open spec fn view(&self) -> Seq<u8> {
        self.bytes@
    }
}

impl Clone for PrivateKey {
    fn clone(&self) -> (r: Self)
        ensures
            r@ == self@,
    {
        PrivateKey { bytes: clone_bytes(&self.bytes) }
    }
}

impl PrivateKey {
    pub fn from_bytes(bytes: Vec<u8>) -> (r: Self)
        ensures
            r@ == bytes@,
    {
        PrivateKey { bytes }
    }
}

impl View for Signature {
    type V = Seq<u8>;

    open spec fn view(&self) -> Seq<u8> {
        self.bytes@
    }
}

impl Clone for Signature {
    fn clone(&self) -> (r: Self)
        ensures
            r@ == self@,
    {
        Signature { bytes: clone_bytes(&self.bytes) }
    }
}

impl PartialEq for Signature {
    fn eq(&self, other: &Self) -> (r: bool) {
        bytes_eq(&self.bytes, &other.bytes)
    }
}

impl Eq for Signature {}

impl vstd::std_specs::cmp::PartialEqSpecImpl for Signature {
    open spec fn obeys_eq_spec() -> bool {
        true
    }

    open spec fn eq_spec(&self, other: &Self) -> bool {
        self@ == other@
    }
}

impl Signature {
    pub fn from_bytes(bytes: Vec<u8>) -> (r: Self)
        ensures
            r@ == bytes@,
    {
        Signature { bytes }
    }
}

impl View for Uid {
    type V = Seq<u8>;

    open spec fn view(&self) -> Seq<u8> {
        self.bytes@
    }
}

impl Clone for Uid {
    fn clone(&self) -> (r: Self)
        ensures
            r@ == self@,
    {
        Uid { bytes: clone_bytes(&self.bytes) }
    }
}

impl PartialEq for Uid {
    fn eq(&self, other: &Self) -> (r: bool) {
        bytes_eq(&self.bytes, &other.bytes)
    }
}

impl Eq for Uid {}

impl vstd::std_specs::cmp::PartialEqSpecImpl for Uid {
    open spec fn obeys_eq_spec() -> bool {
        true
    }

    open spec fn eq_spec(&self, other: &Self) -> bool {
        self@ == other@
    }
}

impl Uid {
    pub fn from_bytes(bytes: Vec<u8>) -> (r: Self)
        ensures
            r@ == bytes@,
    {
        Uid { bytes }
    }
}

impl View for InvoiceId {
    type V = Seq<u8>;

    open spec fn view(&self) -> Seq<u8> {
        self.bytes@
    }
}

impl Clone for InvoiceId {
    fn clone(&self) -> (r: Self)
        ensures
            r@ == self@,
    {
        InvoiceId { bytes: clone_bytes(&self.bytes) }
    }
}

impl PartialEq for InvoiceId {
    fn eq(&self, other: &Self) -> (r: bool) {
        bytes_eq(&self.bytes, &other.bytes)
    }
}

impl Eq for InvoiceId {}

impl vstd::std_specs::cmp::PartialEqSpecImpl for InvoiceId {
    open spec fn obeys_eq_spec() -> bool {
        true
    }

    open spec fn eq_spec(&self, other: &Self) -> bool {
        self@ == other@
    }
}

impl InvoiceId {
    pub fn from_bytes(bytes: Vec<u8>) -> (r: Self)
        ensures
            r@ == bytes@,
    {
        InvoiceId { bytes }
    }
}

impl View for PaymentId {
    type V = Seq<u8>;

    open spec fn view(&self) -> Seq<u8> {
        self.bytes@
    }
}

impl Clone for PaymentId {
    fn clone(&self) -> (r: Self)
        ensures
            r@ == self@,
    {
        PaymentId { bytes: clone_bytes(&self.bytes) }
    }
}

impl PartialEq for PaymentId {
    fn eq(&self, other: &Self) -> (r: bool) {
        bytes_eq(&self.bytes, &other.bytes)
    }
}

impl Eq for PaymentId {}

impl vstd::std_specs::cmp::PartialEqSpecImpl for PaymentId {
    open spec fn obeys_eq_spec() -> bool {
        true
    }

    open spec fn eq_spec(&self, other: &Self) -> bool {
        self@ == other@
    }
}

impl PaymentId {
    pub fn from_bytes(bytes: Vec<u8>) -> (r: Self)
        ensures
            r@ == bytes@,
    {
        PaymentId { bytes }
    }
}

impl View for RandValue {
    type V = Seq<u8>;

    open spec fn view(&self) -> Seq<u8> {
        self.bytes@
    }
}

impl Clone for RandValue {
    fn clone(&self) -> (r: Self)
        ensures
            r@ == self@,
    {
        RandValue { bytes: clone_bytes(&self.bytes) }
    }
}

impl PartialEq for RandValue {
    fn eq(&self, other: &Self) -> (r: bool) {
        bytes_eq(&self.bytes, &other.bytes)
    }
}

impl Eq for RandValue {}

impl vstd::std_specs::cmp::PartialEqSpecImpl for RandValue {
    open spec fn obeys_eq_spec() -> bool {
        true
    }

    open spec fn eq_spec(&self, other: &Self) -> bool {
        self@ == other@
    }
}

impl RandValue {
    pub fn from_bytes(bytes: Vec<u8>) -> (r: Self)
        ensures
            r@ == bytes@,
    {
        RandValue { bytes }
    }
}

impl View for HashResult {
    type V = Seq<u8>;

    open spec fn view(&self) -> Seq<u8> {
        self.bytes@
    }
}

impl Clone for HashResult {
    fn clone(&self) -> (r: Self)
        ensures
            r@ == self@,
    {
        HashResult { bytes: clone_bytes(&self.bytes) }
    }
}

impl PartialEq for HashResult {
    fn eq(&self, other: &Self) -> (r: bool) {
        bytes_eq(&self.bytes, &other.bytes)
    }
}

impl Eq for HashResult {}

impl vstd::std_specs::cmp::PartialEqSpecImpl for HashResult {
    open spec fn obeys_eq_spec() -> bool {
        true
    }

    open spec fn eq_spec(&self, other: &Self) -> bool {
        self@ == other@
    }
}

impl HashResult {
    pub fn from_bytes(bytes: Vec<u8>) -> (r: Self)
        ensures
            r@ == bytes@,
    {
        HashResult { bytes }
    }
}

impl View for HashedLock {
    type V = Seq<u8>;

    open spec fn view(&self) -> Seq<u8> {
        self.bytes@
    }
}

impl Clone for HashedLock {
    fn clone(&self) -> (r: Self)
        ensures
            r@ == self@,
    {
        HashedLock { bytes: clone_bytes(&self.bytes) }
    }
}

impl PartialEq for HashedLock {
    fn eq(&self, other: &Self) -> (r: bool) {
        bytes_eq(&self.bytes, &other.bytes)
    }
}

impl Eq for HashedLock {}

impl vstd::std_specs::cmp::PartialEqSpecImpl for HashedLock {
    open spec fn obeys_eq_spec() -> bool {
        true
    }

    open spec fn eq_spec(&self, other: &Self) -> bool {
        self@ == other@
    }
}

impl HashedLock {
    pub fn from_bytes(bytes: Vec<u8>) -> (r: Self)
        ensures
            r@ == bytes@,
    {
        HashedLock { bytes }
    }
}

impl View for PlainLock {
    type V = Seq<u8>;

    open spec fn view(&self) -> Seq<u8> {
        self.bytes@
    }
}

impl Clone for PlainLock {
    fn clone(&self) -> (r: Self)
        ensures
            r@ == self@,
    {
        PlainLock { bytes: clone_bytes(&self.bytes) }
    }
}

impl PartialEq for PlainLock {
    fn eq(&self, other: &Self) -> (r: bool) {
        bytes_eq(&self.bytes, &other.bytes)
    }
}

impl Eq for PlainLock {}

impl vstd::std_specs::cmp::PartialEqSpecImpl for PlainLock {
    open spec fn obeys_eq_spec() -> bool {
        true
    }

    open spec fn eq_spec(&self, other: &Self) -> bool {
        self@ == other@
    }
}

impl PlainLock {
    pub fn from_bytes(bytes: Vec<u8>) -> (r: Self)
        ensures
            r@ == bytes@,
    {
        PlainLock { bytes }
    }

    /// The hash lock commitment of this plain lock.
    pub fn hash_lock(&self) -> (r: HashedLock)
        ensures
            r@ == hash_lock_of(self@),
    {
        let digest = sha2_digest(&self.bytes);
        HashedLock { bytes: digest }
    }
}

impl View for Currency {
    type V = Seq<u8>;

    open spec fn view(&self) -> Seq<u8> {
        self.bytes@
    }
}

impl Clone for Currency {
    fn clone(&self) -> (r: Self)
        ensures
            r@ == self@,
    {
        Currency { bytes: clone_bytes(&self.bytes) }
    }
}

impl PartialEq for Currency {
    fn eq(&self, other: &Self) -> (r: bool) {
        bytes_eq(&self.bytes, &other.bytes)
    }
}

impl Eq for Currency {}

impl vstd::std_specs::cmp::PartialEqSpecImpl for Currency {
    open spec fn obeys_eq_spec() -> bool {
        true
    }

    open spec fn eq_spec(&self, other: &Self) -> bool {
        self@ == other@
    }
}

impl Currency {
    /// A currency name is well formed when it fits the bounded length.
    pub open spec fn wf(&self) -> bool {
        self@.len() <= MAX_CURRENCY_LEN
    }

    pub fn from_bytes(bytes: Vec<u8>) -> (r: Self)
        ensures
            r@ == bytes@,
    {
        Currency { bytes }
    }
}

impl View for NetAddress {
    type V = Seq<u8>;

    open spec fn view(&self) -> Seq<u8> {
        self.bytes@
    }
}

impl Clone for NetAddress {
    fn clone(&self) -> (r: Self)
        ensures
            r@ == self@,
    {
        NetAddress { bytes: clone_bytes(&self.bytes) }
    }
}

impl PartialEq for NetAddress {
    fn eq(&self, other: &Self) -> (r: bool) {
        bytes_eq(&self.bytes, &other.bytes)
    }
}

impl Eq for NetAddress {}

impl vstd::std_specs::cmp::PartialEqSpecImpl for NetAddress {
    open spec fn obeys_eq_spec() -> bool {
        true
    }

    open spec fn eq_spec(&self, other: &Self) -> bool {
        self@ == other@
    }
}

impl NetAddress {
    pub fn from_bytes(bytes: Vec<u8>) -> (r: Self)
        ensures
            r@ == bytes@,
    {
        NetAddress { bytes }
    }
}

/// What a hash lock commits to: the digest of the plain lock.
pub open spec fn hash_lock_of(plain: Seq<u8>) -> Seq<u8> {
    sha512_256_of(plain)
}

/// Compute the sha512/256 digest of a byte buffer.
pub fn sha_512_256(data: &Vec<u8>) -> (r: HashResult)
    ensures
        r@ == sha512_256_of(data@),
        r@.len() == HASH_RESULT_LEN,
{
    HashResult { bytes: sha2_digest(data) }
}

/// Check an ed25519 signature over a buffer.
pub fn verify_signature(data: &Vec<u8>, public_key: &PublicKey, signature: &Signature) -> (r: bool)
    ensures
        r == signature_valid(data@, public_key@, signature@),
{
    ed25519_verify(data, &public_key.bytes, &signature.bytes)
}

/// Sign a buffer with an ed25519 private key.
pub fn sign_buffer(data: &Vec<u8>, private_key: &PrivateKey) -> (r: Signature)
    requires
        private_key@.len() == PRIVATE_KEY_LEN,
    ensures
        r@ == sign_of(data@, private_key@),
        r@.len() == SIGNATURE_LEN,
        signature_valid(data@, public_of(private_key@), r@),
{
    Signature { bytes: ed25519_sign(data, &private_key.bytes) }
}

/// Derive the public key belonging to a private key.
pub fn derive_public_key(private_key: &PrivateKey) -> (r: PublicKey)
    requires
        private_key@.len() == PRIVATE_KEY_LEN,
    ensures
        r@ == public_of(private_key@),
        r@.len() == PUBLIC_KEY_LEN,
{
    PublicKey { bytes: ed25519_public(&private_key.bytes) }
}

} // verus!
