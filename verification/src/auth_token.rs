//! Authentication tokens: issuance and invalidation.

use crate::decimal::{decimal, u128_to_decimal, u64_to_decimal};
use crate::error::{settle, Error, StorageError};
use crate::harness::{clone_fields, extend_fields, texts, DiskOp, IntoRow};
use crate::hash::{DefaultHashGenerator, HashGenerator};
use crate::id::{DefaultIdGenerator, IdGenerator};
use vstd::prelude::*;
use vstd::string::*;

verus! {

/// What a token is: its identifier, the session that owns it, the plaintext
/// secret handed to the caller, the digest kept at rest, and the validity
/// flag.
pub struct AuthTokenView {
    pub id: u64,
    pub session_id: u64,
    pub secret: Seq<char>,
    pub secret_digest: Seq<char>,
    pub valid: bool,
}

impl AuthTokenView {
    /// The token after invalidation: the flag is down, all else is as it
    /// was.
    pub open spec fn invalidated(self) -> AuthTokenView {
        AuthTokenView { valid: false, ..self }
    }

    /// The row that a store receives: identifier, session, digest and flag.
    /// The plaintext secret is not part of it.
    pub open spec fn row(self) -> Seq<Seq<char>> {
        seq![
            decimal(self.id as nat),
            decimal(self.session_id as nat),
            self.secret_digest,
            if self.valid {
                "true"@
            } else {
                "false"@
            },
        ]
    }
}

/// One issued credential. The flag starts up and can only go down.
#[derive(Debug)]
pub struct AuthToken {
    id: u64,
    session_id: u64,
    secret: String,
    secret_digest: String,
    valid: bool,
}

impl View for AuthToken {
    type V = AuthTokenView;

    closed spec fn view(&self) -> AuthTokenView {
        AuthTokenView {
            id: self.id,
            session_id: self.session_id,
            secret: self.secret@,
            secret_digest: self.secret_digest@,
            valid: self.valid,
        }
    }
}

impl Clone for AuthToken {
    /// A copy that holds what the token holds, flag included.
    fn clone(&self) -> (r: Self)
        ensures
            r@ == self@,
    {
        AuthToken {
            id: self.id,
            session_id: self.session_id,
            secret: self.secret.clone(),
            secret_digest: self.secret_digest.clone(),
            valid: self.valid,
        }
    }
}

impl AuthToken {
    /// A newly issued token: valid, and holding exactly what it was given.
    pub fn issued(id: u64, session_id: u64, secret: String, secret_digest: String) -> (t: AuthToken)
        ensures
            t@ == (AuthTokenView {
                id,
                session_id,
                secret: secret@,
                secret_digest: secret_digest@,
                valid: true,
            }),
    {
        AuthToken { id, session_id, secret, secret_digest, valid: true }
    }

    pub fn id(&self) -> (r: u64)
        ensures
            r == self@.id,
    {
        self.id
    }

    pub fn session_id(&self) -> (r: u64)
        ensures
            r == self@.session_id,
    {
        self.session_id
    }

    /// The plaintext secret, which exists only in the caller's hands.
    pub fn secret(&self) -> (r: &str)
        ensures
            r@ == self@.secret,
    {
        self.secret.as_str()
    }

    pub fn secret_digest(&self) -> (r: &str)
        ensures
            r@ == self@.secret_digest,
    {
        self.secret_digest.as_str()
    }

    /// Reads the validity flag. The secret is not checked again.
    pub fn is_valid(&self) -> (r: bool)
        ensures
            r == self@.valid,
    {
        self.valid
    }

    /// Takes the token out of use. On a token that is already out of use
    /// nothing changes.
    pub fn invalidate(&mut self)
        ensures
            final(self)@ == old(self)@.invalidated(),
    {
        self.valid = false;
    }
}

impl IntoRow for AuthToken {
    open spec fn row(&self) -> Seq<Seq<char>> {
        self@.row()
    }

    fn into_row(&self) -> (r: Vec<String>) {
        let mut r: Vec<String> = Vec::new();
        r.push(u64_to_decimal(self.id));
        r.push(u64_to_decimal(self.session_id));
        r.push(self.secret_digest.clone());
        if self.valid {
            r.push(String::from_str("true"));
        } else {
            r.push(String::from_str("false"));
        }
        assert(texts(r@) =~= self@.row());
        r
    }
}

/// Invalidation is idempotent and final: a second invalidation changes
/// nothing, and the flag is down after either.
pub proof fn lemma_invalidate_idempotent(t: AuthTokenView)
    ensures
        !t.invalidated().valid,
        t.invalidated().invalidated() == t.invalidated(),
        !t.valid ==> t.invalidated() == t,
{
}

/// What a persisted invalidation leaves of a token and reports, given the
/// store's answer to the update: a token that was out of use already stays
/// as it is and the store is not asked; otherwise the flag goes down where
/// the store took the update, and the token is left in use, with the
/// store's error, where it did not.
pub open spec fn invalidation_outcome(t: AuthTokenView, stored: Result<(), StorageError>) -> (
    AuthTokenView,
    Result<(), Error>,
) {
    if !t.valid {
        (t, Ok(()))
    } else {
        match stored {
            Ok(_) => (t.invalidated(), Ok(())),
            Err(e) => (t, Err(Error::of_storage(e))),
        }
    }
}

/// Settles an invalidation once the store has answered.
pub fn settle_invalidation(token: &mut AuthToken, stored: Result<(), StorageError>) -> (r: Result<
    (),
    Error,
>)
    ensures
        (final(token)@, r) == invalidation_outcome(old(token)@, stored),
{
    if !token.is_valid() {
        return Ok(());
    }
    match stored {
        Ok(_) => {
            token.invalidate();
            Ok(())
        },
        Err(e) => Err(Error::from_storage(e)),
    }
}

/// A persisted invalidation never brings a token back into use and changes
/// nothing but the flag, whatever the store answers; settled a second time,
/// with any answer, a token that went out of use stays as it is and the
/// call succeeds.
pub proof fn lemma_invalidation_is_final(
    t: AuthTokenView,
    stored: Result<(), StorageError>,
    again: Result<(), StorageError>,
)
    ensures
        invalidation_outcome(t, stored).0.valid ==> t.valid,
        invalidation_outcome(t, stored).0 == t || invalidation_outcome(t, stored).0
            == t.invalidated(),
        invalidation_outcome(t, stored).1 is Ok ==> !invalidation_outcome(t, stored).0.valid,
        !invalidation_outcome(t, stored).0.valid ==> invalidation_outcome(
            invalidation_outcome(t, stored).0,
            again,
        ) == (invalidation_outcome(t, stored).0, Ok::<(), Error>(())),
{
}

/// The token that is issued for a draw of identifier and secret once the
/// secret's digest is there: valid, with the decimal numeral of the drawn
/// value as its secret.
pub open spec fn sealed_token(
    id: u64,
    session_id: u64,
    secret: u128,
    digest: Seq<char>,
) -> AuthTokenView {
    AuthTokenView {
        id,
        session_id,
        secret: decimal(secret as nat),
        secret_digest: digest,
        valid: true,
    }
}

/// The outcome of an operation by the view of the token it hands out.
pub open spec fn token_views(r: Result<AuthToken, Error>) -> Result<AuthTokenView, Error> {
    match r {
        Ok(t) => Ok(t@),
        Err(e) => Err(e),
    }
}

/// A digest generator's answer by the text of the digest.
pub open spec fn digest_text(r: Result<String, Error>) -> Result<Seq<char>, Error> {
    match r {
        Ok(d) => Ok(d@),
        Err(e) => Err(e),
    }
}

/// Options of a token manager: where identifiers and digests come from, and
/// which fields the store is asked to write.
pub struct AuthTokenManagerConfig<T, U> where T: IdGenerator, U: HashGenerator {
    id_generator: T,
    hash_generator: U,
    fields: Vec<String>,
}

impl AuthTokenManagerConfig<DefaultIdGenerator, DefaultHashGenerator> {
    /// The default options: the system's random source, scrypt digests, and
    /// the fields `id`, `session_id`, `secret_digest`, `valid`.
    pub fn new_default() -> (r: Self)
        ensures
            r.field_names() == seq!["id"@, "session_id"@, "secret_digest"@, "valid"@],
    {
        Self::new(DefaultIdGenerator {  }, DefaultHashGenerator {  })
    }
}

impl<T, U> AuthTokenManagerConfig<T, U> where T: IdGenerator + Copy, U: HashGenerator + Copy {
    /// Options with the given identifier source and digest generator, and
    /// the fields `id`, `session_id`, `secret_digest`, `valid`.
    pub fn new(id_generator: T, hash_generator: U) -> (r: Self)
        ensures
            r.field_names() == seq!["id"@, "session_id"@, "secret_digest"@, "valid"@],
            r.id_source() == id_generator,
            r.hasher() == hash_generator,
    {
        let mut fields: Vec<String> = Vec::new();
        fields.push(String::from_str("id"));
        fields.push(String::from_str("session_id"));
        fields.push(String::from_str("secret_digest"));
        fields.push(String::from_str("valid"));
        assert(texts(fields@) =~= seq!["id"@, "session_id"@, "secret_digest"@, "valid"@]);
        Self { id_generator, hash_generator, fields }
    }

    /// Adds field names after those already listed, and changes nothing
    /// else.
    pub fn with_fields(&mut self, fields: Vec<String>)
        ensures
            final(self).field_names() == old(self).field_names() + texts(fields@),
            final(self).hasher() == old(self).hasher(),
            final(self).id_source() == old(self).id_source(),
    {
        extend_fields(&mut self.fields, fields);
    }

    /// The names of the fields that the store is asked to write.
    pub closed spec fn field_names(&self) -> Seq<Seq<char>> {
        texts(self.fields@)
    }

    /// The digest generator that managers built from these options use.
    pub closed spec fn hasher(&self) -> U {
        self.hash_generator
    }

    /// The identifier source that managers built from these options use.
    pub closed spec fn id_source(&self) -> T {
        self.id_generator
    }

    /// A manager over `harness` with these options.
    pub fn init<X: DiskOp>(&self, harness: X) -> (m: AuthTokenManager<T, U, X>)
        ensures
            m.field_names() == self.field_names(),
            m.hasher() == self.hasher(),
            m.id_source() == self.id_source(),
            m.store() == harness,
    {
        AuthTokenManager {
            id_generator: self.id_generator,
            hash_generator: self.hash_generator,
            fields: clone_fields(&self.fields),
            harness,
        }
    }
}

/// Issues tokens and persists them. It does not know which token of a
/// session is the current one: issuing a token leaves every other token as
/// it is.
pub struct AuthTokenManager<T, U, X> where T: IdGenerator, U: HashGenerator, X: DiskOp {
    id_generator: T,
    hash_generator: U,
    fields: Vec<String>,
    harness: X,
}

impl<T, U, X> AuthTokenManager<T, U, X> where T: IdGenerator, U: HashGenerator, X: DiskOp {
    /// The names of the fields that the store is asked to write.
    pub closed spec fn field_names(&self) -> Seq<Seq<char>> {
        texts(self.fields@)
    }

    /// The digest generator that secrets are digested with.
    pub closed spec fn hasher(&self) -> U {
        self.hash_generator
    }

    /// The source that identifiers and secrets are drawn from.
    pub closed spec fn id_source(&self) -> T {
        self.id_generator
    }

    /// The store that tokens are persisted through.
    pub closed spec fn store(&self) -> X {
        self.harness
    }

    /// The token for a draw and the digest generator's answer: a valid token
    /// whose secret is the decimal numeral of the drawn value, or
    /// `GenerationFailure` where no digest was issued.
    pub open spec fn sealed(
        id: u64,
        session_id: u64,
        secret: u128,
        digest: Result<Seq<char>, Error>,
    ) -> Result<AuthTokenView, Error> {
        match digest {
            Ok(d) => Ok(sealed_token(id, session_id, secret, d)),
            Err(_) => Err(Error::GenerationFailure),
        }
    }

    /// Builds the token for a draw and the digest generator's answer.
    pub fn seal(id: u64, session_id: u64, secret: u128, digest: Result<String, Error>) -> (r: Result<
        AuthToken,
        Error,
    >)
        ensures
            token_views(r) == Self::sealed(id, session_id, secret, digest_text(digest)),
    {
        match digest {
            Ok(d) => Ok(AuthToken::issued(id, session_id, u128_to_decimal(secret), d)),
            Err(_) => Err(Error::GenerationFailure),
        }
    }

    /// Issues a token for a session: draws an identifier and a secret, has
    /// the secret digested, and persists the record. The token comes back
    /// valid, bound to `session_id`, with a digest that accepts its secret.
    /// A failed digest gives `GenerationFailure` and the store is not asked;
    /// a failed write gives the store's error: `seal` and `settle` say so
    /// for every answer of the digest generator and of the store.
    pub fn next_token(&self, session_id: u64) -> (r: Result<AuthToken, Error>)
        ensures
            r is Ok ==> {
                let t = r->Ok_0@;
                &&& t.session_id == session_id
                &&& t.valid
                &&& self.hasher().accepts(t.secret, t.secret_digest)
                &&& exists|secret: u128| t == sealed_token(t.id, session_id, secret, t.secret_digest)
            },
    {
        let id = self.id_generator.new_u64();
        let secret = self.id_generator.new_u128();
        let text = u128_to_decimal(secret);
        let digest = self.hash_generator.issue(text.as_str());
        let sealed = Self::seal(id, session_id, secret, digest);
        let stored = match &sealed {
            Ok(token) => {
                assert(token@ == sealed_token(token@.id, session_id, secret, token@.secret_digest));
                self.harness.insert(token, &self.fields)
            },
            Err(_) => Ok(()),
        };
        settle(sealed, stored)
    }

    /// Takes a token out of use and persists that. The store receives the
    /// record with the flag down before the caller's token changes, so a
    /// failed update leaves the token as it was and comes back as the
    /// store's error. A token that is out of use already is left alone: the
    /// store is not asked and the call succeeds. The flag never goes up.
    pub fn invalidate(&self, token: &mut AuthToken) -> (r: Result<(), Error>)
        ensures
            r is Ok ==> final(token)@ == old(token)@.invalidated(),
            r is Err ==> final(token)@ == old(token)@ && old(token)@.valid,
            r is Err ==> r->Err_0 != Error::GenerationFailure,
    {
        if !token.is_valid() {
            return Ok(());
        }
        let mut record = token.clone();
        record.invalidate();
        let stored = self.harness.update_by_id(record.id(), &record, &self.fields);
        settle_invalidation(token, stored)
    }
}

/// Two tokens sealed from distinct identifier draws and distinct digests
/// share neither an identifier nor a digest, whatever session and secrets
/// they were sealed for.
pub proof fn lemma_distinct_draws_distinct_tokens(
    session_id: u64,
    first_id: u64,
    first_secret: u128,
    first_digest: Seq<char>,
    second_id: u64,
    second_secret: u128,
    second_digest: Seq<char>,
)
    requires
        first_id != second_id,
        first_digest != second_digest,
    ensures
        sealed_token(first_id, session_id, first_secret, first_digest).id != sealed_token(
            second_id,
            session_id,
            second_secret,
            second_digest,
        ).id,
        sealed_token(first_id, session_id, first_secret, first_digest).secret_digest
            != sealed_token(second_id, session_id, second_secret, second_digest).secret_digest,
{
}

} // verus!
