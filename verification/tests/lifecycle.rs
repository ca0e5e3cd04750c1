use sheesh::auth_token::{settle_invalidation, AuthToken, AuthTokenManager, AuthTokenManagerConfig};
use sheesh::error::{confirm, Error, StorageError};
use sheesh::harness::{clone_fields, extend_fields, DiskOp, IntoRow};
use sheesh::hash::{DefaultHashGenerator, HashGenerator};
use sheesh::id::{DefaultIdGenerator, IdGenerator};
use sheesh::session::{settle_rotation, settle_session, Session, SessionManagerConfig};
use std::cell::RefCell;
use std::rc::Rc;

type Written = Rc<RefCell<Vec<(String, Vec<String>, Vec<String>)>>>;

/// A store that keeps what it is asked to write, or refuses every write.
struct Recorder {
    written: Written,
    refuse: Option<StorageError>,
}

impl Recorder {
    fn accepting() -> (Recorder, Written) {
        let written: Written = Rc::new(RefCell::new(Vec::new()));
        (Recorder { written: written.clone(), refuse: None }, written)
    }

    fn refusing(e: StorageError) -> Recorder {
        Recorder { written: Rc::new(RefCell::new(Vec::new())), refuse: Some(e) }
    }

    fn record<R: IntoRow>(&self, op: &str, record: &R, fields: &Vec<String>) -> Result<(), StorageError> {
        match self.refuse {
            Some(e) => Err(e),
            None => {
                self.written.borrow_mut().push((op.to_string(), record.into_row(), fields.clone()));
                Ok(())
            }
        }
    }
}

impl DiskOp for Recorder {
    fn insert<R: IntoRow>(&self, record: &R, fields: &Vec<String>) -> Result<(), StorageError> {
        self.record("insert", record, fields)
    }

    fn update_by_id<R: IntoRow>(&self, _id: u64, record: &R, fields: &Vec<String>) -> Result<(), StorageError> {
        self.record("update", record, fields)
    }

    fn find_by_id(&self, _id: u64) -> Result<Vec<String>, StorageError> {
        Err(StorageError::NotFound)
    }

    fn delete_by_id(&self, _id: u64) -> Result<(), StorageError> {
        Err(StorageError::NotFound)
    }
}

/// An identifier source that counts up from a start value.
#[derive(Clone, Copy)]
struct Counter {
    next: &'static std::sync::atomic::AtomicU64,
}

impl IdGenerator for Counter {
    fn new_u64(&self) -> u64 {
        self.next.fetch_add(1, std::sync::atomic::Ordering::SeqCst)
    }

    fn new_u128(&self) -> u128 {
        self.new_u64() as u128 + (1u128 << 64)
    }
}

fn names(list: &[&str]) -> Vec<String> {
    list.iter().map(|s| s.to_string()).collect()
}

fn sample_token(id: u64, session_id: u64) -> AuthToken {
    AuthToken::issued(id, session_id, "12345".to_string(), "$digest".to_string())
}

#[test]
fn new_session_points_at_the_returned_token() {
    let (sessions, _) = Recorder::accepting();
    let (tokens, _) = Recorder::accepting();
    let manager = SessionManagerConfig::new_default().init(sessions, tokens);
    let (session, token) = manager.new_session(7).unwrap();
    assert_eq!(session.current_token_id(), token.id());
    assert_eq!(token.session_id(), session.id());
    assert_eq!(session.user_id(), 7);
}

#[test]
fn session_and_token_life() {
    let (sessions, _) = Recorder::accepting();
    let (tokens, _) = Recorder::accepting();
    let manager = SessionManagerConfig::new_default().init(sessions, tokens);
    let (session, mut token) = manager.new_session(42).unwrap();
    assert_eq!(session.user_id(), 42);
    assert!(token.is_valid());
    token.invalidate();
    assert!(!token.is_valid());
    token.invalidate();
    assert!(!token.is_valid());
}

#[test]
fn invalidating_twice_changes_nothing_more() {
    let mut token = sample_token(1, 2);
    assert!(token.is_valid());
    token.invalidate();
    let once = token.clone();
    token.invalidate();
    assert!(!once.is_valid());
    assert!(!token.is_valid());
    assert_eq!(token.id(), once.id());
    assert_eq!(token.session_id(), once.session_id());
    assert_eq!(token.secret(), once.secret());
    assert_eq!(token.secret_digest(), once.secret_digest());
}

#[test]
fn refresh_moves_the_pointer_to_the_new_token() {
    let (sessions, _) = Recorder::accepting();
    let (tokens, _) = Recorder::accepting();
    let manager = SessionManagerConfig::new_default().init(sessions, tokens);
    let (mut session, first) = manager.new_session(42).unwrap();
    let before = session.current_token_id();
    let second = manager.refresh_session_token(&mut session).unwrap();
    assert_eq!(session.current_token_id(), second.id());
    assert_ne!(session.current_token_id(), before);
    assert_eq!(before, first.id());
    assert_eq!(session.user_id(), 42);
    assert_eq!(second.session_id(), session.id());
    assert!(second.is_valid());
}

#[test]
fn refresh_leaves_the_old_token_valid() {
    let (sessions, _) = Recorder::accepting();
    let (tokens, _) = Recorder::accepting();
    let manager = SessionManagerConfig::new_default().init(sessions, tokens);
    let (mut session, mut first) = manager.new_session(42).unwrap();
    let second = manager.refresh_session_token(&mut session).unwrap();
    assert!(first.is_valid());
    assert!(second.is_valid());
    first.invalidate();
    assert!(!first.is_valid());
    assert!(second.is_valid());
}

#[test]
fn sequential_tokens_share_neither_id_nor_digest() {
    let (sessions, _) = Recorder::accepting();
    let (tokens, _) = Recorder::accepting();
    let manager = SessionManagerConfig::new_default().init(sessions, tokens);
    let (mut session, first) = manager.new_session(1).unwrap();
    let second = manager.refresh_session_token(&mut session).unwrap();
    let third = manager.refresh_session_token(&mut session).unwrap();
    assert_ne!(first.id(), second.id());
    assert_ne!(second.id(), third.id());
    assert_ne!(first.id(), third.id());
    assert_ne!(first.secret_digest(), second.secret_digest());
    assert_ne!(second.secret_digest(), third.secret_digest());
    assert_ne!(first.secret(), second.secret());
}

#[test]
fn token_digest_accepts_the_token_secret_only() {
    let (tokens, _) = Recorder::accepting();
    let manager = AuthTokenManagerConfig::new_default().init(tokens);
    let token = manager.next_token(9).unwrap();
    let hasher = DefaultHashGenerator::init();
    assert!(hasher.verify(token.secret(), token.secret_digest()));
    assert!(!hasher.verify("0", token.secret_digest()));
    assert_ne!(token.secret(), token.secret_digest());
    assert!(token.secret().parse::<u128>().is_ok());
    assert_eq!(token.session_id(), 9);
    assert!(token.is_valid());
}

#[test]
fn token_is_persisted_before_the_session() {
    let written: Written = Rc::new(RefCell::new(Vec::new()));
    let sessions = Recorder { written: written.clone(), refuse: None };
    let tokens = Recorder { written: written.clone(), refuse: None };
    let manager = SessionManagerConfig::new_default().init(sessions, tokens);
    let (session, token) = manager.new_session(42).unwrap();
    let log = written.borrow();
    assert_eq!(log.len(), 2);
    assert_eq!(log[0].0, "insert");
    assert_eq!(
        log[0].1,
        vec![
            token.id().to_string(),
            session.id().to_string(),
            token.secret_digest().to_string(),
            "true".to_string()
        ]
    );
    assert_eq!(log[0].2, names(&["id", "session_id", "secret_digest", "valid"]));
    assert_eq!(log[1].0, "insert");
    assert_eq!(
        log[1].1,
        vec![session.id().to_string(), "42".to_string(), token.id().to_string()]
    );
    assert_eq!(log[1].2, names(&["id", "user_id", "expires", "refresh_token"]));
}

#[test]
fn plaintext_secret_is_never_persisted() {
    let (tokens, written) = Recorder::accepting();
    let manager = AuthTokenManagerConfig::new_default().init(tokens);
    let token = manager.next_token(3).unwrap();
    let log = written.borrow();
    assert_eq!(log.len(), 1);
    for value in log[0].1.iter() {
        assert_ne!(value, token.secret());
    }
}

#[test]
fn extra_fields_follow_the_default_ones() {
    let (sessions, written) = Recorder::accepting();
    let (tokens, _) = Recorder::accepting();
    let mut config = SessionManagerConfig::new_default();
    config.with_fields(names(&["ip", "agent"]));
    let manager = config.init(sessions, tokens);
    manager.new_session(1).unwrap();
    assert_eq!(
        written.borrow()[0].2,
        names(&["id", "user_id", "expires", "refresh_token", "ip", "agent"])
    );
}

#[test]
fn extra_token_fields_follow_the_default_ones() {
    let (tokens, written) = Recorder::accepting();
    let mut config = AuthTokenManagerConfig::new_default();
    config.with_fields(names(&["issued_at"]));
    let manager = config.init(tokens);
    manager.next_token(1).unwrap();
    assert_eq!(
        written.borrow()[0].2,
        names(&["id", "session_id", "secret_digest", "valid", "issued_at"])
    );
}

#[test]
fn one_configuration_builds_several_managers() {
    let config = SessionManagerConfig::new_default();
    let (s1, w1) = Recorder::accepting();
    let (t1, _) = Recorder::accepting();
    let (s2, w2) = Recorder::accepting();
    let (t2, _) = Recorder::accepting();
    let first = config.init(s1, t1);
    let second = config.init(s2, t2);
    first.new_session(1).unwrap();
    second.new_session(2).unwrap();
    assert_eq!(w1.borrow()[0].1[1], "1");
    assert_eq!(w2.borrow()[0].1[1], "2");
    assert_eq!(w1.borrow()[0].2, w2.borrow()[0].2);
}

#[test]
fn failing_token_store_fails_the_session() {
    let (sessions, written) = Recorder::accepting();
    let tokens = Recorder::refusing(StorageError::Backend);
    let manager = SessionManagerConfig::new_default().init(sessions, tokens);
    assert_eq!(manager.new_session(42).err(), Some(Error::StorageFailure));
    assert!(written.borrow().is_empty());
}

#[test]
fn failing_session_store_fails_the_session() {
    let sessions = Recorder::refusing(StorageError::Backend);
    let (tokens, written) = Recorder::accepting();
    let manager = SessionManagerConfig::new_default().init(sessions, tokens);
    assert_eq!(manager.new_session(42).err(), Some(Error::StorageFailure));
    assert_eq!(written.borrow().len(), 1);
}

#[test]
fn not_found_is_propagated() {
    let tokens = Recorder::refusing(StorageError::NotFound);
    let manager = AuthTokenManagerConfig::new_default().init(tokens);
    assert_eq!(manager.next_token(1).err(), Some(Error::NotFound));
}

#[test]
fn failed_refresh_leaves_the_session_as_it_was() {
    let session = Session::opened(5, 42, &sample_token(77, 5));
    let (sessions, _) = Recorder::accepting();
    let tokens = Recorder::refusing(StorageError::Backend);
    let manager = SessionManagerConfig::new_default().init(sessions, tokens);
    let mut current = session;
    assert_eq!(manager.refresh_session_token(&mut current).err(), Some(Error::StorageFailure));
    assert_eq!(current.id(), 5);
    assert_eq!(current.user_id(), 42);
    assert_eq!(current.current_token_id(), 77);
}

#[test]
fn opened_and_rotated_sessions() {
    let session = Session::opened(5, 42, &sample_token(77, 5));
    assert_eq!(session.id(), 5);
    assert_eq!(session.user_id(), 42);
    assert_eq!(session.current_token_id(), 77);
    let next = session.rotated(&sample_token(78, 5));
    assert_eq!(next.id(), 5);
    assert_eq!(next.user_id(), 42);
    assert_eq!(next.current_token_id(), 78);
    assert_eq!(session.current_token_id(), 77);
    assert_eq!(session.into_row(), names(&["5", "42", "77"]));
}

#[test]
fn token_rows() {
    let mut token = sample_token(18446744073709551615, 0);
    assert_eq!(token.into_row(), names(&["18446744073709551615", "0", "$digest", "true"]));
    token.invalidate();
    assert_eq!(token.into_row(), names(&["18446744073709551615", "0", "$digest", "false"]));
}

#[test]
fn sealing_needs_a_digest() {
    type Manager = AuthTokenManager<DefaultIdGenerator, DefaultHashGenerator, Recorder>;
    let token = Manager::seal(1, 2, 340, Ok("$d".to_string())).unwrap();
    assert_eq!(token.id(), 1);
    assert_eq!(token.session_id(), 2);
    assert_eq!(token.secret(), "340");
    assert_eq!(token.secret_digest(), "$d");
    assert!(token.is_valid());
    assert_eq!(Manager::seal(1, 2, 340, Err(Error::GenerationFailure)).err(), Some(Error::GenerationFailure));
    assert_eq!(Manager::seal(1, 2, 340, Err(Error::NotFound)).err(), Some(Error::GenerationFailure));
}

#[test]
fn concluding_a_session() {
    let session = Session::opened(5, 42, &sample_token(77, 5));
    let (s, t) = confirm((session, sample_token(77, 5)), Ok(())).unwrap();
    assert_eq!(s.current_token_id(), t.id());
    assert_eq!(s.id(), 5);
    assert_eq!(
        confirm((session, sample_token(77, 5)), Err(StorageError::Backend)).err(),
        Some(Error::StorageFailure)
    );
    assert_eq!(
        confirm((session, sample_token(77, 5)), Err(StorageError::NotFound)).err(),
        Some(Error::NotFound)
    );
}

#[test]
fn persisted_invalidation() {
    let (tokens, written) = Recorder::accepting();
    let manager = AuthTokenManagerConfig::new_default().init(tokens);
    let mut token = manager.next_token(3).unwrap();
    assert_eq!(manager.invalidate(&mut token), Ok(()));
    assert!(!token.is_valid());
    assert_eq!(written.borrow().len(), 2);
    assert_eq!(written.borrow()[1].0, "update");
    assert_eq!(written.borrow()[1].1[0], token.id().to_string());
    assert_eq!(written.borrow()[1].1[3], "false");
    assert_eq!(manager.invalidate(&mut token), Ok(()));
    assert!(!token.is_valid());
    assert_eq!(written.borrow().len(), 2);
}

#[test]
fn failed_invalidation_leaves_the_token_in_use() {
    let tokens = Recorder::refusing(StorageError::NotFound);
    let manager = AuthTokenManagerConfig::new_default().init(tokens);
    let mut token = sample_token(1, 2);
    assert_eq!(manager.invalidate(&mut token), Err(Error::NotFound));
    assert!(token.is_valid());
    token.invalidate();
    assert_eq!(manager.invalidate(&mut token), Ok(()));
    assert!(!token.is_valid());
}

#[test]
fn settling_an_invalidation() {
    let mut token = sample_token(1, 2);
    assert_eq!(settle_invalidation(&mut token, Err(StorageError::Backend)), Err(Error::StorageFailure));
    assert!(token.is_valid());
    assert_eq!(settle_invalidation(&mut token, Ok(())), Ok(()));
    assert!(!token.is_valid());
    assert_eq!(settle_invalidation(&mut token, Err(StorageError::Backend)), Ok(()));
    assert!(!token.is_valid());
}

#[test]
fn field_lists_are_copied_and_extended_in_order() {
    let mut fields = names(&["a", "b"]);
    let copy = clone_fields(&fields);
    assert_eq!(copy, names(&["a", "b"]));
    extend_fields(&mut fields, names(&["c"]));
    assert_eq!(fields, names(&["a", "b", "c"]));
    extend_fields(&mut fields, Vec::new());
    assert_eq!(fields, names(&["a", "b", "c"]));
    assert_eq!(copy, names(&["a", "b"]));
}

#[test]
fn a_counting_source_gives_the_identifiers_in_order() {
    static NEXT: std::sync::atomic::AtomicU64 = std::sync::atomic::AtomicU64::new(100);
    let source = Counter { next: &NEXT };
    assert_eq!(source.new_u64(), 100);
    assert_eq!(source.new_u64(), 101);
    assert_eq!(source.new_u128(), (1u128 << 64) + 102);
}

#[test]
fn settling_a_sign_in() {
    let (session, token) = settle_session(5, 42, Ok(sample_token(77, 5)), Ok(())).unwrap();
    assert_eq!(session.id(), 5);
    assert_eq!(session.user_id(), 42);
    assert_eq!(session.current_token_id(), 77);
    assert_eq!(token.id(), 77);
    assert_eq!(token.secret_digest(), "$digest");
    assert_eq!(
        settle_session(5, 42, Ok(sample_token(77, 5)), Err(StorageError::Backend)).err(),
        Some(Error::StorageFailure)
    );
    assert_eq!(
        settle_session(5, 42, Ok(sample_token(77, 5)), Err(StorageError::NotFound)).err(),
        Some(Error::NotFound)
    );
    assert_eq!(
        settle_session(5, 42, Err(Error::GenerationFailure), Ok(())).err(),
        Some(Error::GenerationFailure)
    );
    assert_eq!(
        settle_session(5, 42, Err(Error::StorageFailure), Ok(())).err(),
        Some(Error::StorageFailure)
    );
    assert_eq!(
        settle_session(5, 42, Err(Error::GenerationFailure), Err(StorageError::NotFound)).err(),
        Some(Error::GenerationFailure)
    );
}

#[test]
fn settling_a_rotation() {
    let mut session = Session::opened(5, 42, &sample_token(77, 5));
    let token = settle_rotation(&mut session, Ok(sample_token(78, 5))).unwrap();
    assert_eq!(token.id(), 78);
    assert_eq!(session.id(), 5);
    assert_eq!(session.user_id(), 42);
    assert_eq!(session.current_token_id(), 78);
    assert_eq!(
        settle_rotation(&mut session, Err(Error::GenerationFailure)).err(),
        Some(Error::GenerationFailure)
    );
    assert_eq!(session.current_token_id(), 78);
    assert_eq!(
        settle_rotation(&mut session, Err(Error::StorageFailure)).err(),
        Some(Error::StorageFailure)
    );
    assert_eq!(settle_rotation(&mut session, Err(Error::NotFound)).err(), Some(Error::NotFound));
    assert_eq!(session.id(), 5);
    assert_eq!(session.user_id(), 42);
    assert_eq!(session.current_token_id(), 78);
}

#[test]
fn failed_token_step_comes_back_as_it_is() {
    let (sessions, written) = Recorder::accepting();
    let tokens = Recorder::refusing(StorageError::NotFound);
    let manager = SessionManagerConfig::new_default().init(sessions, tokens);
    assert_eq!(manager.new_session(42).err(), Some(Error::NotFound));
    assert!(written.borrow().is_empty());
    let mut session = Session::opened(5, 42, &sample_token(77, 5));
    assert_eq!(manager.refresh_session_token(&mut session).err(), Some(Error::NotFound));
    assert_eq!(session.current_token_id(), 77);
}
