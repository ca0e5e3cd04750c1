//! One-way digests of token secrets.

use crate::decimal::{decimal, u64_to_decimal};
use crate::error::Error;
use scrypt::password_hash::rand_core::OsRng;
use scrypt::password_hash::{PasswordHash, PasswordHasher, PasswordVerifier, Salt, SaltString};
use scrypt::{Params, Scrypt};
use vstd::prelude::*;
use vstd::string::*;

verus! {

/// Issues digests of secrets and checks a presented secret against one.
///
/// `accepts` is the relation that a digest stands for: `verify` decides it,
/// and every digest that `issue` hands out is in it with the secret it was
/// issued for.
pub trait HashGenerator {
    /// Whether `digest` is a digest of `secret` under the parameters that
    /// the digest itself carries.
    spec fn accepts(&self, secret: Seq<char>, digest: Seq<char>) -> bool;

    /// A fresh digest of `secret`. Two calls on one secret may differ (the
    /// salt is fresh each time); each result verifies against the secret.
    /// Fails only with `GenerationFailure`.
    fn issue(&self, secret: &str) -> (r: Result<String, Error>)
        ensures
            match r {
                Ok(digest) => self.accepts(secret@, digest@),
                Err(e) => e == Error::GenerationFailure,
            },
    ;

    /// Whether the presented secret matches the stored digest. A mismatch
    /// and a malformed digest both give `false`.
    fn verify(&self, secret: &str, digest: &str) -> (r: bool)
        ensures
            r == self.accepts(secret@, digest@),
    ;
}

/// The binary logarithm of scrypt's work factor for token digests. Token
/// secrets are 128 random bits, so the work factor is kept low.
pub const TOKEN_LOG_N: u8 = 10;

/// scrypt's block size for token digests.
pub const TOKEN_R: u32 = 8;

/// scrypt's parallelism for token digests.
pub const TOKEN_P: u32 = 1;

/// The length in bytes of the raw digest inside the PHC string.
pub const TOKEN_DIGEST_LEN: usize = 32;

/// The largest work factor, as a binary logarithm, that a digest may ask of
/// verification.
pub const MAX_LOG_N: u8 = 16;

/// The largest block size that a digest may ask of verification.
pub const MAX_R: u32 = 8;

/// The largest parallelism that a digest may ask of verification.
pub const MAX_P: u32 = 8;

/// How a PHC string of scrypt begins, up to the block size.
pub open spec fn work_head(log_n: u8) -> Seq<char> {
    "$scrypt$ln="@ + decimal(log_n as nat) + ",r="@
}

/// How a PHC string of scrypt begins, up to the parallelism.
pub open spec fn block_head(log_n: u8, r: u32) -> Seq<char> {
    work_head(log_n) + decimal(r as nat) + ",p="@
}

/// How a PHC string of scrypt begins: the algorithm and the three
/// parameters in decimal, as in `$scrypt$ln=10,r=8,p=1$`. The salt follows.
pub open spec fn phc_header(log_n: u8, r: u32, p: u32) -> Seq<char> {
    block_head(log_n, r) + decimal(p as nat) + "$"@
}

/// Parameters that verification is willing to work with.
pub open spec fn within_bounds(log_n: u8, r: u32, p: u32) -> bool {
    log_n <= MAX_LOG_N && 1 <= r <= MAX_R && 1 <= p <= MAX_P
}

/// Whether a digest begins as a PHC string of scrypt whose parameters are
/// within the bounds. Only such a digest is ever handed to scrypt.
pub open spec fn work_bounded(digest: Seq<char>) -> bool {
    exists|log_n: u8, r: u32, p: u32|
        within_bounds(log_n, r, p) && #[trigger] phc_header(log_n, r, p).is_prefix_of(digest)
}

/// Whether a digest carries `salt` right after the header of the given
/// parameters, closed by the separator. A salt holds no separator itself.
pub open spec fn carries_salt(digest: Seq<char>, log_n: u8, r: u32, p: u32, salt: Seq<char>) -> bool {
    &&& !salt.contains('$')
    &&& (phc_header(log_n, r, p) + salt + seq!['$']).is_prefix_of(digest)
}

/// A digest carries one salt only, so digests that carry distinct salts
/// under the same parameters are distinct: two digests of one secret differ
/// wherever the salts drawn for them differ.
pub proof fn lemma_distinct_salts_distinct_digests(
    first: Seq<char>,
    second: Seq<char>,
    log_n: u8,
    r: u32,
    p: u32,
    first_salt: Seq<char>,
    second_salt: Seq<char>,
)
    requires
        carries_salt(first, log_n, r, p, first_salt),
        carries_salt(second, log_n, r, p, second_salt),
        first_salt != second_salt,
    ensures
        first != second,
{
    if first == second {
        let head = phc_header(log_n, r, p);
        let a = head + first_salt + seq!['$'];
        let b = head + second_salt + seq!['$'];
        let n = head.len() as int;
        assert(a =~= first.subrange(0, a.len() as int));
        assert(b =~= first.subrange(0, b.len() as int));
        assert forall|i: int| 0 <= i < a.len() implies a[i] == first[i] by {
            assert(first.subrange(0, a.len() as int)[i] == first[i]);
        }
        assert forall|i: int| 0 <= i < b.len() implies b[i] == first[i] by {
            assert(first.subrange(0, b.len() as int)[i] == first[i]);
        }
        if first_salt.len() < second_salt.len() {
            let k = first_salt.len() as int;
            assert(a[n + k] == '$');
            assert(b[n + k] == second_salt[k]);
            assert(second_salt.contains(second_salt[k]));
        } else if second_salt.len() < first_salt.len() {
            let k = second_salt.len() as int;
            assert(b[n + k] == '$');
            assert(a[n + k] == first_salt[k]);
            assert(first_salt.contains(first_salt[k]));
        } else {
            assert forall|i: int| 0 <= i < first_salt.len() implies first_salt[i]
                == second_salt[i] by {
                assert(a[n + i] == first_salt[i]);
                assert(b[n + i] == second_salt[i]);
            }
            assert(first_salt =~= second_salt);
        }
    }
}

/// The empty digest carries no parameters, so it is accepted for no secret;
/// nor is any other digest whose parameters are not within the bounds.
pub proof fn lemma_malformed_digest_is_rejected(
    generator: DefaultHashGenerator,
    secret: Seq<char>,
    digest: Seq<char>,
)
    ensures
        !work_bounded(Seq::<char>::empty()),
        !generator.accepts(secret, Seq::<char>::empty()),
        !work_bounded(digest) ==> !generator.accepts(secret, digest),
{
    assert forall|log_n: u8, r: u32, p: u32| !#[trigger] phc_header(log_n, r, p).is_prefix_of(
        Seq::<char>::empty(),
    ) by {
        reveal_strlit("$");
        assert(phc_header(log_n, r, p).len() >= 1);
    }
}

/// A text that begins with a header begins with the header's own
/// beginnings.
pub proof fn lemma_header_heads(log_n: u8, r: u32, p: u32, digest: Seq<char>)
    requires
        phc_header(log_n, r, p).is_prefix_of(digest),
    ensures
        block_head(log_n, r).is_prefix_of(digest),
        work_head(log_n).is_prefix_of(digest),
{
    let full = phc_header(log_n, r, p);
    let block = block_head(log_n, r);
    let work = work_head(log_n);
    assert(full =~= digest.subrange(0, full.len() as int));
    assert(block =~= digest.subrange(0, block.len() as int)) by {
        assert forall|i: int| 0 <= i < block.len() implies block[i] == digest[i] by {
            assert(full[i] == block[i]);
            assert(digest.subrange(0, full.len() as int)[i] == digest[i]);
        }
    }
    assert(work =~= digest.subrange(0, work.len() as int)) by {
        assert forall|i: int| 0 <= i < work.len() implies work[i] == digest[i] by {
            assert(block[i] == work[i]);
        }
    }
}

/// Whether `text` begins with `prefix`.
pub fn starts_with(text: &str, prefix: &str) -> (b: bool)
    ensures
        b == prefix@.is_prefix_of(text@),
{
    let n = prefix.unicode_len();
    if text.unicode_len() < n {
        return false;
    }
    let mut i: usize = 0;
    while i < n
        invariant
            i <= n,
            n == prefix@.len(),
            n <= text@.len(),
            forall|j: int| 0 <= j < i ==> text@[j] == prefix@[j],
        decreases n - i,
    {
        if text.get_char(i) != prefix.get_char(i) {
            assert(!prefix@.is_prefix_of(text@)) by {
                if prefix@.is_prefix_of(text@) {
                    assert(text@.subrange(0, n as int)[i as int] == prefix@[i as int]);
                }
            }
            return false;
        }
        i += 1;
    }
    assert(prefix@ =~= text@.subrange(0, n as int));
    true
}

fn work_head_text(log_n: u8) -> (s: String)
    ensures
        s@ == work_head(log_n),
{
    let mut s = String::from_str("$scrypt$ln=");
    s.append(u64_to_decimal(log_n as u64).as_str());
    s.append(",r=");
    s
}

fn block_head_text(log_n: u8, r: u32) -> (s: String)
    ensures
        s@ == block_head(log_n, r),
{
    let mut s = work_head_text(log_n);
    s.append(u64_to_decimal(r as u64).as_str());
    s.append(",p=");
    s
}

fn phc_header_text(log_n: u8, r: u32, p: u32) -> (s: String)
    ensures
        s@ == phc_header(log_n, r, p),
{
    let mut s = block_head_text(log_n, r);
    s.append(u64_to_decimal(p as u64).as_str());
    s.append("$");
    s
}

/// Reads the parameters that a digest carries and says whether they are
/// within the bounds. A digest that does not begin as a PHC string of
/// scrypt, parameters included, is not.
pub fn carries_bounded_work(digest: &str) -> (b: bool)
    ensures
        b == work_bounded(digest@),
{
    let mut log_n: u8 = 0;
    while log_n <= MAX_LOG_N
        invariant
            log_n <= MAX_LOG_N + 1,
            forall|l: u8, r: u32, p: u32|
                l < log_n && within_bounds(l, r, p) ==> !#[trigger] phc_header(
                    l,
                    r,
                    p,
                ).is_prefix_of(digest@),
        decreases MAX_LOG_N + 1 - log_n,
    {
        let work = work_head_text(log_n);
        if starts_with(digest, work.as_str()) {
            let mut r: u32 = 1;
            while r <= MAX_R
                invariant
                    1 <= r <= MAX_R + 1,
                    log_n <= MAX_LOG_N,
                    forall|tried_r: u32, p: u32|
                        tried_r < r && within_bounds(log_n, tried_r, p) ==> !#[trigger] phc_header(
                            log_n,
                            tried_r,
                            p,
                        ).is_prefix_of(digest@),
                decreases MAX_R + 1 - r,
            {
                let block = block_head_text(log_n, r);
                if starts_with(digest, block.as_str()) {
                    let mut p: u32 = 1;
                    while p <= MAX_P
                        invariant
                            1 <= p <= MAX_P + 1,
                            1 <= r <= MAX_R,
                            log_n <= MAX_LOG_N,
                            forall|tried_p: u32|
                                tried_p < p && within_bounds(log_n, r, tried_p) ==> !#[trigger] phc_header(
                                    log_n,
                                    r,
                                    tried_p,
                                ).is_prefix_of(digest@),
                        decreases MAX_P + 1 - p,
                    {
                        let full = phc_header_text(log_n, r, p);
                        if starts_with(digest, full.as_str()) {
                            return true;
                        }
                        p += 1;
                    }
                } else {
                    assert forall|p: u32| within_bounds(log_n, r, p) implies !#[trigger] phc_header(
                        log_n,
                        r,
                        p,
                    ).is_prefix_of(digest@) by {
                        if phc_header(log_n, r, p).is_prefix_of(digest@) {
                            lemma_header_heads(log_n, r, p, digest@);
                        }
                    }
                }
                r += 1;
            }
        } else {
            assert forall|r: u32, p: u32| within_bounds(log_n, r, p) implies !#[trigger] phc_header(
                log_n,
                r,
                p,
            ).is_prefix_of(digest@) by {
                if phc_header(log_n, r, p).is_prefix_of(digest@) {
                    lemma_header_heads(log_n, r, p, digest@);
                }
            }
        }
        log_n += 1;
    }
    false
}

/// Digests in PHC string format, computed by scrypt.
#[derive(Clone, Copy)]
pub struct DefaultHashGenerator {}

/// The PHC string that scrypt computes for a secret, a salt and a set of
/// parameters, or `None` where it rejects the salt or the parameters.
pub uninterp spec fn scrypt_phc(
    secret: Seq<char>,
    salt: Seq<char>,
    log_n: u8,
    r: u32,
    p: u32,
    len: usize,
) -> Option<Seq<char>>;

/// Whether scrypt's verification accepts a secret for a PHC string.
pub uninterp spec fn scrypt_accepts(secret: Seq<char>, digest: Seq<char>) -> bool;

/// Calls `SaltString::generate(&mut OsRng)` of password-hash: sixteen random
/// bytes in B64. Which bytes is left open. The text is always a salt that
/// scrypt takes: twenty-two characters of the B64 alphabet that decode
/// back to the bytes, so that hashing any secret with it under the token
/// parameters gives a digest. Where the system yields no entropy the call
/// ends the process.
#[verifier::external_body]
fn fresh_salt() -> (out: String)
    ensures
        forall|secret: Seq<char>| #[trigger]
            scrypt_phc(secret, out@, TOKEN_LOG_N, TOKEN_R, TOKEN_P, TOKEN_DIGEST_LEN) is Some,
{
    SaltString::generate(&mut OsRng).as_str().to_string()
}

/// Calls `Scrypt.hash_password_customized` of scrypt with the parameters
/// from `Params::new` and the salt from `Salt::from_b64`, and writes the
/// result as a PHC string. The result is a function of the arguments alone.
/// As verification recomputes the digest from the salt and parameters that
/// the string carries, the string is accepted for the same secret. The
/// string begins with the algorithm and the parameters in decimal, and
/// carries the salt after them, between two separators; a salt that
/// `Salt::from_b64` takes holds no separator. The parameters are bounded so
/// that the memory the call takes stays small.
#[verifier::external_body]
fn scrypt_hash(secret: &str, salt: &str, log_n: u8, r: u32, p: u32, len: usize) -> (out: Option<
    String,
>)
    requires
        log_n <= MAX_LOG_N,
        r <= MAX_R,
        p <= MAX_P,
    ensures
        match out {
            Some(d) => {
                &&& scrypt_phc(secret@, salt@, log_n, r, p, len) == Some(d@)
                &&& scrypt_accepts(secret@, d@)
                &&& phc_header(log_n, r, p).is_prefix_of(d@)
                &&& carries_salt(d@, log_n, r, p, salt@)
            },
            None => scrypt_phc(secret@, salt@, log_n, r, p, len) is None,
        },
{
    let params = Params::new(log_n, r, p, len).ok()?;
    let salt = Salt::from_b64(salt).ok()?;
    let hash = Scrypt.hash_password_customized(secret.as_bytes(), None, None, params, salt).ok()?;
    Some(hash.to_string())
}

/// Calls `PasswordHash::new` of password-hash on the digest and
/// `Scrypt.verify_password` of scrypt on the secret and the parsed digest.
/// The answer is a function of the two strings alone; a digest that does not
/// parse is not accepted. The work that the call does is set by the
/// parameters that the digest carries, so only a digest whose parameters
/// are within the bounds is admitted.
#[verifier::external_body]
fn scrypt_verify(secret: &str, digest: &str) -> (ok: bool)
    requires
        work_bounded(digest@),
    ensures
        ok == scrypt_accepts(secret@, digest@),
{
    match PasswordHash::new(digest) {
        Ok(parsed) => Scrypt.verify_password(secret.as_bytes(), &parsed).is_ok(),
        Err(_) => false,
    }
}

impl DefaultHashGenerator {
    pub fn init() -> Self {
        Self {  }
    }

    /// The digest that `issue_with_salt` owes for a secret and a salt.
    pub open spec fn salted(secret: Seq<char>, salt: Seq<char>) -> Option<Seq<char>> {
        scrypt_phc(secret, salt, TOKEN_LOG_N, TOKEN_R, TOKEN_P, TOKEN_DIGEST_LEN)
    }

    /// The digest of `secret` under the given B64 salt and the token
    /// parameters; `GenerationFailure` exactly where scrypt rejects the salt.
    /// The digest is accepted for the secret and carries the salt.
    pub fn issue_with_salt(&self, secret: &str, salt: &str) -> (r: Result<String, Error>)
        ensures
            match r {
                Ok(digest) => {
                    &&& Self::salted(secret@, salt@) == Some(digest@)
                    &&& self.accepts(secret@, digest@)
                    &&& carries_salt(digest@, TOKEN_LOG_N, TOKEN_R, TOKEN_P, salt@)
                },
                Err(e) => Self::salted(secret@, salt@) is None && e == Error::GenerationFailure,
            },
    {
        match scrypt_hash(secret, salt, TOKEN_LOG_N, TOKEN_R, TOKEN_P, TOKEN_DIGEST_LEN) {
            Some(digest) => Ok(digest),
            None => Err(Error::GenerationFailure),
        }
    }
}

impl HashGenerator for DefaultHashGenerator {
    /// A digest is accepted for a secret where its parameters are within
    /// the bounds and scrypt's verification accepts it.
    open spec fn accepts(&self, secret: Seq<char>, digest: Seq<char>) -> bool {
        work_bounded(digest) && scrypt_accepts(secret, digest)
    }

    /// Never fails: the digest is the one that `issue_with_salt` gives for
    /// the salt that was drawn, and carries that salt.
    fn issue(&self, secret: &str) -> (r: Result<String, Error>)
        ensures
            r is Ok,
            exists|salt: Seq<char>|
                {
                    &&& #[trigger] Self::salted(secret@, salt) == Some(r->Ok_0@)
                    &&& carries_salt(r->Ok_0@, TOKEN_LOG_N, TOKEN_R, TOKEN_P, salt)
                },
    {
        let salt = fresh_salt();
        assert(Self::salted(secret@, salt@) is Some);
        self.issue_with_salt(secret, salt.as_str())
    }

    fn verify(&self, secret: &str, digest: &str) -> (r: bool) {
        if carries_bounded_work(digest) {
            scrypt_verify(secret, digest)
        } else {
            false
        }
    }
}

} // verus!
