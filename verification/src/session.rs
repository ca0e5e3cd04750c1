//! Sessions: creation and token rotation.

use crate::auth_token::{
    token_views, AuthToken, AuthTokenManager, AuthTokenManagerConfig, AuthTokenView,
};
use crate::decimal::{decimal, u64_to_decimal};
use crate::error::{confirm, confirmed, Error, StorageError};
use crate::harness::{clone_fields, extend_fields, texts, DiskOp, IntoRow};
use crate::hash::{DefaultHashGenerator, HashGenerator};
use crate::id::{DefaultIdGenerator, IdGenerator};
use vstd::prelude::*;
use vstd::string::*;

verus! {

/// What a session is: its identifier, the user it belongs to, and the one
/// token that is current for it.
pub struct SessionView {
    pub id: u64,
    pub user_id: u64,
    pub current_token_id: u64,
}

impl SessionView {
    /// The session after rotation to the token `token_id`: the pointer is
    /// replaced, identifier and user stay.
    pub open spec fn rotated(self, token_id: u64) -> SessionView {
        SessionView { current_token_id: token_id, ..self }
    }

    /// The row that a store receives: identifier, user and current token.
    pub open spec fn row(self) -> Seq<Seq<char>> {
        seq![
            decimal(self.id as nat),
            decimal(self.user_id as nat),
            decimal(self.current_token_id as nat),
        ]
    }
}

/// One sign-in episode of a user. It is read through getters only and
/// changes only through the manager's refresh.
#[derive(Clone, Copy, Debug)]
pub struct Session {
    id: u64,
    user_id: u64,
    current_token_id: u64,
}

impl View for Session {
    type V = SessionView;

    closed spec fn view(&self) -> SessionView {
        SessionView { id: self.id, user_id: self.user_id, current_token_id: self.current_token_id }
    }
}

impl Session {
    /// The session `id` of `user_id` whose current token is `token`.
    pub fn opened(id: u64, user_id: u64, token: &AuthToken) -> (s: Session)
        ensures
            s@ == (SessionView { id, user_id, current_token_id: token@.id }),
    {
        Session { id, user_id, current_token_id: token.id() }
    }

    /// This session with `token` as its current token. The session itself
    /// is left as it is.
    pub fn rotated(&self, token: &AuthToken) -> (s: Session)
        ensures
            s@ == self@.rotated(token@.id),
    {
        Session { id: self.id, user_id: self.user_id, current_token_id: token.id() }
    }

    pub fn id(&self) -> (r: u64)
        ensures
            r == self@.id,
    {
        self.id
    }

    pub fn user_id(&self) -> (r: u64)
        ensures
            r == self@.user_id,
    {
        self.user_id
    }

    pub fn current_token_id(&self) -> (r: u64)
        ensures
            r == self@.current_token_id,
    {
        self.current_token_id
    }
}

impl IntoRow for Session {
    open spec fn row(&self) -> Seq<Seq<char>> {
        self@.row()
    }

    fn into_row(&self) -> (r: Vec<String>) {
        let mut r: Vec<String> = Vec::new();
        r.push(u64_to_decimal(self.id));
        r.push(u64_to_decimal(self.user_id));
        r.push(u64_to_decimal(self.current_token_id));
        assert(texts(r@) =~= self@.row());
        r
    }
}

/// Rotation replaces the pointer and nothing else: the session keeps its
/// identifier and its user, points at the new token, and no longer at the
/// old one where the new token's identifier differs from it. Rotating twice
/// leaves only the last pointer.
pub proof fn lemma_rotation_replaces_pointer(s: SessionView, first: u64, second: u64)
    ensures
        s.rotated(first).id == s.id,
        s.rotated(first).user_id == s.user_id,
        s.rotated(first).current_token_id == first,
        first != s.current_token_id ==> s.rotated(first).current_token_id != s.current_token_id,
        s.rotated(first).rotated(second) == s.rotated(second),
{
}

/// Options of a session manager: where identifiers come from, the options of
/// its token manager, and which fields the store is asked to write.
pub struct SessionManagerConfig<T, U> where T: IdGenerator, U: HashGenerator {
    id_generator: T,
    token_generator_config: AuthTokenManagerConfig<T, U>,
    fields: Vec<String>,
}

impl SessionManagerConfig<DefaultIdGenerator, DefaultHashGenerator> {
    /// The default options: the system's random source, the default token
    /// options, and the fields `id`, `user_id`, `expires`, `refresh_token`.
    pub fn new_default() -> (r: Self)
        ensures
            r.field_names() == seq!["id"@, "user_id"@, "expires"@, "refresh_token"@],
            r.token_field_names() == seq!["id"@, "session_id"@, "secret_digest"@, "valid"@],
    {
        Self::new(DefaultIdGenerator {  }, AuthTokenManagerConfig::new_default())
    }
}

impl<T, U> SessionManagerConfig<T, U> where T: IdGenerator + Copy, U: HashGenerator + Copy {
    /// Options with the given identifier source and token options, and the
    /// fields `id`, `user_id`, `expires`, `refresh_token`.
    pub fn new(id_generator: T, token_generator_config: AuthTokenManagerConfig<T, U>) -> (r: Self)
        ensures
            r.field_names() == seq!["id"@, "user_id"@, "expires"@, "refresh_token"@],
            r.token_field_names() == token_generator_config.field_names(),
            r.hasher() == token_generator_config.hasher(),
            r.id_source() == (id_generator, token_generator_config.id_source()),
    {
        let mut fields: Vec<String> = Vec::new();
        fields.push(String::from_str("id"));
        fields.push(String::from_str("user_id"));
        fields.push(String::from_str("expires"));
        fields.push(String::from_str("refresh_token"));
        assert(texts(fields@) =~= seq!["id"@, "user_id"@, "expires"@, "refresh_token"@]);
        Self { id_generator, token_generator_config, fields }
    }

    /// Adds field names after those already listed. The token options are
    /// left as they are.
    pub fn with_fields(&mut self, fields: Vec<String>)
        ensures
            final(self).field_names() == old(self).field_names() + texts(fields@),
            final(self).token_field_names() == old(self).token_field_names(),
            final(self).hasher() == old(self).hasher(),
            final(self).id_source() == old(self).id_source(),
    {
        extend_fields(&mut self.fields, fields);
    }

    /// The names of the fields that the session store is asked to write.
    pub closed spec fn field_names(&self) -> Seq<Seq<char>> {
        texts(self.fields@)
    }

    /// The names of the fields that the token store is asked to write.
    pub closed spec fn token_field_names(&self) -> Seq<Seq<char>> {
        self.token_generator_config.field_names()
    }

    /// The digest generator that managers built from these options use.
    pub closed spec fn hasher(&self) -> U {
        self.token_generator_config.hasher()
    }

    /// The identifier source that managers built from these options use,
    /// for sessions and for tokens.
    pub closed spec fn id_source(&self) -> (T, T) {
        (self.id_generator, self.token_generator_config.id_source())
    }

    /// A manager over the two stores with these options.
    pub fn init<V: DiskOp, X: DiskOp>(&self, session_harness: V, token_harness: X) -> (m:
        SessionManager<T, U, V, X>)
        ensures
            m.field_names() == self.field_names(),
            m.token_field_names() == self.token_field_names(),
            m.hasher() == self.hasher(),
            m.id_source() == self.id_source(),
            m.store() == session_harness,
            m.token_store() == token_harness,
    {
        SessionManager {
            id_generator: self.id_generator,
            token_generator: self.token_generator_config.init(token_harness),
            fields: clone_fields(&self.fields),
            harness: session_harness,
        }
    }
}

/// What signing in returns, given the token step's result and the session
/// store's answer: a failed token step comes back as it is, and the store is
/// not asked; otherwise the session that points at the token, beside the
/// token, where the store took the write, and the store's error where it did
/// not.
pub open spec fn session_outcome(
    id: u64,
    user_id: u64,
    issued: Result<AuthTokenView, Error>,
    stored: Result<(), StorageError>,
) -> Result<(SessionView, AuthTokenView), Error> {
    match issued {
        Ok(t) => confirmed((SessionView { id, user_id, current_token_id: t.id }, t), stored),
        Err(e) => Err(e),
    }
}

/// The outcome of signing in by the views of what it hands out.
pub open spec fn session_views(r: Result<(Session, AuthToken), Error>) -> Result<
    (SessionView, AuthTokenView),
    Error,
> {
    match r {
        Ok((s, t)) => Ok((s@, t@)),
        Err(e) => Err(e),
    }
}

/// Settles a sign-in once the token step and the session store have
/// answered.
pub fn settle_session(
    id: u64,
    user_id: u64,
    issued: Result<AuthToken, Error>,
    stored: Result<(), StorageError>,
) -> (r: Result<(Session, AuthToken), Error>)
    ensures
        session_views(r) == session_outcome(id, user_id, token_views(issued), stored),
{
    match issued {
        Ok(token) => {
            let session = Session::opened(id, user_id, &token);
            confirm((session, token), stored)
        },
        Err(e) => Err(e),
    }
}

/// What a rotation leaves of a session and returns, given the token step's
/// result: the session points at the new token, which is handed out, or the
/// session is left as it was and the failure comes back as it is.
pub open spec fn rotation_outcome(s: SessionView, issued: Result<AuthTokenView, Error>) -> (
    SessionView,
    Result<AuthTokenView, Error>,
) {
    match issued {
        Ok(t) => (s.rotated(t.id), Ok(t)),
        Err(e) => (s, Err(e)),
    }
}

/// Settles a rotation once the token step has answered.
pub fn settle_rotation(session: &mut Session, issued: Result<AuthToken, Error>) -> (r: Result<
    AuthToken,
    Error,
>)
    ensures
        (final(session)@, token_views(r)) == rotation_outcome(old(session)@, token_views(issued)),
        r == issued,
{
    match issued {
        Ok(token) => {
            *session = session.rotated(&token);
            Ok(token)
        },
        Err(e) => Err(e),
    }
}

/// Creates sessions and rotates their tokens.
pub struct SessionManager<T, U, V, X> where T: IdGenerator, U: HashGenerator, V: DiskOp, X: DiskOp {
    id_generator: T,
    token_generator: AuthTokenManager<T, U, X>,
    fields: Vec<String>,
    harness: V,
}

impl<T, U, V, X> SessionManager<T, U, V, X> where
    T: IdGenerator,
    U: HashGenerator,
    V: DiskOp,
    X: DiskOp,
 {
    /// The names of the fields that the session store is asked to write.
    pub closed spec fn field_names(&self) -> Seq<Seq<char>> {
        texts(self.fields@)
    }

    /// The names of the fields that the token store is asked to write.
    pub closed spec fn token_field_names(&self) -> Seq<Seq<char>> {
        self.token_generator.field_names()
    }

    /// The digest generator that token secrets are digested with.
    pub closed spec fn hasher(&self) -> U {
        self.token_generator.hasher()
    }

    /// The sources that identifiers are drawn from, for sessions and for
    /// tokens.
    pub closed spec fn id_source(&self) -> (T, T) {
        (self.id_generator, self.token_generator.id_source())
    }

    /// The store that sessions are persisted through.
    pub closed spec fn store(&self) -> V {
        self.harness
    }

    /// The store that tokens are persisted through.
    pub closed spec fn token_store(&self) -> X {
        self.token_generator.store()
    }

    /// Signs a user in: draws a session identifier, has a token issued for
    /// it, and persists the session that points at that token. The token is
    /// persisted before the session. Any failure of the token step or of the
    /// session store comes back as it is: `settle_session` says so for every
    /// answer of the two.
    pub fn new_session(&self, user_id: u64) -> (r: Result<(Session, AuthToken), Error>)
        ensures
            r is Ok ==> {
                let (s, t) = r->Ok_0;
                &&& s@.user_id == user_id
                &&& s@.current_token_id == t@.id
                &&& t@.session_id == s@.id
                &&& t@.valid
                &&& self.hasher().accepts(t@.secret, t@.secret_digest)
            },
    {
        let id = self.id_generator.new_u64();
        let issued = self.token_generator.next_token(id);
        let stored = match &issued {
            Ok(token) => self.harness.insert(&Session::opened(id, user_id, token), &self.fields),
            Err(_) => Ok(()),
        };
        settle_session(id, user_id, issued, stored)
    }

    /// Rotates the session's token: has a new token issued for the session
    /// and makes it the current one. The token that was current before is
    /// not touched: it stays valid until its holder invalidates it. Where no
    /// token could be issued the session is left as it was and the failure
    /// comes back as it is: `settle_rotation` says so for every answer of the
    /// token step.
    pub fn refresh_session_token(&self, session: &mut Session) -> (r: Result<AuthToken, Error>)
        ensures
            match r {
                Ok(t) => {
                    &&& final(session)@ == old(session)@.rotated(t@.id)
                    &&& t@.session_id == old(session)@.id
                    &&& t@.valid
                    &&& self.hasher().accepts(t@.secret, t@.secret_digest)
                },
                Err(_) => final(session)@ == old(session)@,
            },
    {
        let issued = self.token_generator.next_token(session.id);
        settle_rotation(session, issued)
    }
}

} // verus!
