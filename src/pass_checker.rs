//! Salted, iterated password hashing (PBKDF2 with HMAC-SHA256).
use vstd::prelude::*;
use vstd::string::StringSliceAdditionalSpecFns;

verus! {

/// Length in bytes of a stored credential: the SHA-256 output size.
pub const CREDENTIAL_LEN: usize = 32;

/// Largest salt or secret, in bytes, that the digest accepts here.
pub const MAX_INPUT_LEN: u64 = 0x1000_0000_0000_0000;

/// Largest previously derived value that can be checked: one SHA-256 block of
/// output for each of the `u32::MAX` block indexes.
pub const MAX_DERIVED_LEN: u64 = 137438953440;

/// The key that PBKDF2-HMAC-SHA256 derives, of `len` bytes, from `secret` under
/// `salt` with `iterations` rounds.
pub uninterp spec fn pbkdf2_sha256(iterations: u32, salt: Seq<u8>, secret: Seq<u8>, len: nat) -> Seq<u8>;

/// Relies on ring::pbkdf2::derive with PBKDF2_HMAC_SHA256: it fills a buffer of
/// `len` bytes with the derived key, which depends on the arguments alone. It
/// panics on zero iterations and on inputs longer than the digest takes.
#[verifier::external_body]
fn pbkdf2_derive(iterations: u32, salt: &[u8], secret: &[u8], len: usize) -> (r: Vec<u8>)
    requires
        iterations >= 1,
        salt@.len() <= MAX_INPUT_LEN,
        secret@.len() <= MAX_INPUT_LEN,
        len <= MAX_DERIVED_LEN,
    ensures
        r@.len() == len,
        r@ == pbkdf2_sha256(iterations, salt@, secret@, len as nat),
{
    let mut out = vec![0u8; len];
    let rounds = core::num::NonZeroU32::new(iterations).unwrap();
    ring::pbkdf2::derive(ring::pbkdf2::PBKDF2_HMAC_SHA256, rounds, salt, secret, &mut out);
    out
}

/// Relies on ring::pbkdf2::verify with PBKDF2_HMAC_SHA256: it succeeds exactly
/// when `previously_derived` is non-empty, not longer than the derivation can
/// produce, and equal to the key derived at its own length.
#[verifier::external_body]
fn pbkdf2_verify(iterations: u32, salt: &[u8], secret: &[u8], previously_derived: &[u8]) -> (r: bool)
    requires
        iterations >= 1,
        salt@.len() <= MAX_INPUT_LEN,
        secret@.len() <= MAX_INPUT_LEN,
    ensures
        r == (0 < previously_derived@.len() <= MAX_DERIVED_LEN
            && previously_derived@ == pbkdf2_sha256(
            iterations,
            salt@,
            secret@,
            previously_derived@.len(),
        )),
{
    let rounds = core::num::NonZeroU32::new(iterations).unwrap();
    ring::pbkdf2::verify(ring::pbkdf2::PBKDF2_HMAC_SHA256, rounds, salt, secret, previously_derived)
        .is_ok()
}

/// The hashing policy: an iteration count and a global salt.
pub struct PassChecker {
    iterations: u32,
    salt: Vec<u8>,
}

/// What an identity or a password contributes to the derivation: its UTF-8 bytes.
pub open spec fn text_bytes(s: Seq<char>) -> Seq<u8> {
    vstd::utf8::encode_utf8(s)
}

impl PassChecker {
    /// The iteration count.
    pub closed spec fn spec_iterations(&self) -> u32 {
        self.iterations
    }

    /// The global salt.
    pub closed spec fn spec_salt(&self) -> Seq<u8> {
        self.salt@
    }

    /// A usable policy: at least one round, and a salt the digest accepts.
    pub open spec fn wf(&self) -> bool {
        self.spec_iterations() >= 1 && self.spec_salt().len() <= MAX_INPUT_LEN / 2
    }

    /// The per-identity salt: the global salt followed by the identity's bytes.
    pub open spec fn salt_for(&self, user_id: Seq<char>) -> Seq<u8> {
        self.spec_salt() + text_bytes(user_id)
    }

    /// The stored hash of `password` for `user_id`.
    pub open spec fn hash_of(&self, user_id: Seq<char>, password: Seq<char>) -> Seq<u8> {
        pbkdf2_sha256(
            self.spec_iterations(),
            self.salt_for(user_id),
            text_bytes(password),
            CREDENTIAL_LEN as nat,
        )
    }

    /// Whether `hash` is a hash that `password` derives for `user_id`.
    pub open spec fn matches(&self, user_id: Seq<char>, hash: Seq<u8>, password: Seq<char>) -> bool {
        &&& 0 < hash.len() <= MAX_DERIVED_LEN
        &&& hash == pbkdf2_sha256(
            self.spec_iterations(),
            self.salt_for(user_id),
            text_bytes(password),
            hash.len(),
        )
    }

    /// Inputs short enough for the digest.
    pub open spec fn accepts(&self, user_id: &str, password: &str) -> bool {
        &&& user_id.spec_bytes().len() <= MAX_INPUT_LEN / 2
        &&& password.spec_bytes().len() <= MAX_INPUT_LEN
    }

    /// Creates a policy with `hash_iterations` rounds and the global `salt`.
    pub fn new(hash_iterations: u32, salt: Vec<u8>) -> (r: Self)
        requires
            hash_iterations >= 1,
            salt@.len() <= MAX_INPUT_LEN / 2,
        ensures
            r.wf(),
            r.spec_iterations() == hash_iterations,
            r.spec_salt() == salt@,
    {
        PassChecker { iterations: hash_iterations, salt }
    }

    /// The iteration count.
    pub fn iterations(&self) -> (r: u32)
        ensures
            r == self.spec_iterations(),
    {
        self.iterations
    }

    /// A copy of the global salt.
    pub fn salt(&self) -> (r: Vec<u8>)
        ensures
            r@ == self.spec_salt(),
    {
        let mut r: Vec<u8> = Vec::new();
        append_bytes(&mut r, self.salt.as_slice());
        r
    }

    /// Checks `password` against the stored `hash` of `user_id`.
    pub fn check_password(&self, user_id: &str, hash: &[u8], password: &str) -> (r: bool)
        requires
            self.wf(),
            self.accepts(user_id, password),
        ensures
            r == self.matches(user_id@, hash@, password@),
    {
        let salt = self.make_salt(user_id);
        pbkdf2_verify(self.iterations, salt.as_slice(), password.as_bytes(), hash)
    }

    /// Hashes `password` for `user_id`.
    pub fn hash_password(&self, user_id: &str, password: &str) -> (r: Vec<u8>)
        requires
            self.wf(),
            self.accepts(user_id, password),
        ensures
            r@.len() == CREDENTIAL_LEN,
            r@ == self.hash_of(user_id@, password@),
    {
        let salt = self.make_salt(user_id);
        pbkdf2_derive(self.iterations, salt.as_slice(), password.as_bytes(), CREDENTIAL_LEN)
    }

    /// The global salt followed by the bytes of `user_id`.
    fn make_salt(&self, user_id: &str) -> (r: Vec<u8>)
        requires
            self.wf(),
            user_id.spec_bytes().len() <= MAX_INPUT_LEN / 2,
        ensures
            r@ == self.salt_for(user_id@),
            r@.len() <= MAX_INPUT_LEN,
    {
        let mut salt: Vec<u8> = Vec::new();
        append_bytes(&mut salt, self.salt.as_slice());
        append_bytes(&mut salt, user_id.as_bytes());
        salt
    }
}

/// Rounds of the policy that a fresh installation starts with.
pub const DEFAULT_ITERATIONS: u32 = 100_000;

/// The policy that a fresh installation starts with: 100 000 rounds and the
/// global salt `[1, 2]`.
pub fn new_pass_checker() -> (r: PassChecker)
    ensures
        r.wf(),
        r.spec_iterations() == DEFAULT_ITERATIONS,
        r.spec_salt() == seq![1u8, 2u8],
{
    let salt: Vec<u8> = vec![1u8, 2u8];
    PassChecker::new(DEFAULT_ITERATIONS, salt)
}

/// Appends the bytes of `src` to `dst`.
fn append_bytes(dst: &mut Vec<u8>, src: &[u8])
    ensures
        final(dst)@ == old(dst)@ + src@,
{
    let ghost start = dst@;
    let mut i: usize = 0;
    while i < src.len()
        invariant
            i <= src@.len(),
            dst@ == start + src@.subrange(0, i as int),
        decreases src@.len() - i,
    {
        dst.push(src[i]);
        i = i + 1;
        assert(dst@ =~= start + src@.subrange(0, i as int));
    }
    assert(src@.subrange(0, src@.len() as int) =~= src@);
}

/// Hashing is a function of the policy and the inputs: two policies with the
/// same iteration count and salt give the same hash for the same identity and
/// password, so hashing twice yields identical bytes.
pub proof fn lemma_hash_deterministic(
    a: &PassChecker,
    b: &PassChecker,
    user_id: Seq<char>,
    password: Seq<char>,
)
    requires
        a.spec_iterations() == b.spec_iterations(),
        a.spec_salt() == b.spec_salt(),
    ensures
        a.hash_of(user_id, password) == b.hash_of(user_id, password),
{
}

/// A password always checks against its own hash: whatever `hash_password`
/// returns for an identity and a password, `check_password` accepts for them.
pub proof fn lemma_check_own_hash(
    c: &PassChecker,
    user_id: Seq<char>,
    password: Seq<char>,
    hash: Seq<u8>,
)
    requires
        hash.len() == CREDENTIAL_LEN,
        hash == c.hash_of(user_id, password),
    ensures
        c.matches(user_id, hash, password),
{
}

/// A hash made for one password does not check for another, wherever the
/// derivation gives the two passwords different keys (which it is built to do,
/// and which no proof here can show).
pub proof fn lemma_other_password_fails(
    c: &PassChecker,
    user_id: Seq<char>,
    password: Seq<char>,
    other: Seq<char>,
    hash: Seq<u8>,
)
    requires
        hash.len() == CREDENTIAL_LEN,
        hash == c.hash_of(user_id, password),
        c.hash_of(user_id, password) != c.hash_of(user_id, other),
    ensures
        !c.matches(user_id, hash, other),
{
}

/// Distinct identities get distinct per-identity salts, so the same password
/// is derived under a different salt for each identity.
pub proof fn lemma_salt_distinct(c: &PassChecker, u1: Seq<char>, u2: Seq<char>)
    requires
        u1 != u2,
    ensures
        c.salt_for(u1) != c.salt_for(u2),
{
    let g = c.spec_salt();
    if c.salt_for(u1) == c.salt_for(u2) {
        assert(text_bytes(u1) =~= c.salt_for(u1).subrange(g.len() as int, c.salt_for(u1).len() as int));
        assert(text_bytes(u2) =~= c.salt_for(u2).subrange(g.len() as int, c.salt_for(u2).len() as int));
        vstd::utf8::encode_utf8_decode_utf8(u1);
        vstd::utf8::encode_utf8_decode_utf8(u2);
    }
}

} // verus!
