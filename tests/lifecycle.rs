use std::cell::{Cell, RefCell};
use std::collections::VecDeque;

use keycloak_auth::service::{after_auth, after_inner, ServiceError};
use keycloak_auth::{KeycloakAuthInner, KeycloakError, Readiness, State, Token, TokenOperation, TokenSource};

/// A fetch that stays unfinished for a number of polls, then yields its result.
struct ScriptedFetch {
    pending_polls: usize,
    result: Option<Result<Token, KeycloakError>>,
}

impl TokenOperation<()> for ScriptedFetch {
    fn poll_token(&mut self, _cx: &mut ()) -> Option<Result<Token, KeycloakError>> {
        if self.pending_polls > 0 {
            self.pending_polls -= 1;
            return None;
        }
        Some(self.result.take().expect("polled after completion"))
    }
}

/// Hands out the scripted fetches in order and counts them.
struct Script {
    fetches: RefCell<VecDeque<ScriptedFetch>>,
    calls: Cell<usize>,
}

impl Script {
    fn new() -> Self {
        Script { fetches: RefCell::new(VecDeque::new()), calls: Cell::new(0) }
    }

    fn then(self, pending_polls: usize, result: Result<Token, KeycloakError>) -> Self {
        self.fetches.borrow_mut().push_back(ScriptedFetch { pending_polls, result: Some(result) });
        self
    }
}

impl TokenSource<ScriptedFetch> for Script {
    fn fetches(&self) -> u64 {
        self.calls.get() as u64
    }

    fn fetch_token_boxed(&mut self) -> ScriptedFetch {
        self.calls.set(self.calls.get() + 1);
        self.fetches.borrow_mut().pop_front().expect("unexpected fetch")
    }
}

fn token(access: &str, expires_in: u64, now: u64) -> Token {
    Token::new("Bearer", access, expires_in, now).unwrap()
}

fn server_error() -> KeycloakError {
    KeycloakError::FetchToken { status_code: 503, response_text: String::from("unavailable") }
}

#[test]
fn stamp_after_successful_fetch() {
    let mut auth = KeycloakAuthInner::new(Script::new().then(0, Ok(token("abc123", 300, 0))));
    assert!(!auth.can_skip_poll_ready(0));
    assert!(matches!(auth.poll_ready(&mut (), 0), Readiness::Ready));
    assert_eq!(auth.header_value(), "Bearer abc123");
    assert!(auth.can_skip_poll_ready(1_000));
    assert!(matches!(auth.poll_ready(&mut (), 1_000), Readiness::Ready));
    assert_eq!(auth.client().calls.get(), 1);
    assert_eq!(auth.client().fetches(), 1);
}

#[test]
fn single_fetch_while_pending() {
    let mut auth = KeycloakAuthInner::new(Script::new().then(3, Ok(token("abc123", 300, 0))));
    for _ in 0..3 {
        assert!(matches!(auth.poll_ready(&mut (), 0), Readiness::NotReady));
        assert!(matches!(auth.state(), State::Fetching { .. }));
        assert!(!auth.can_skip_poll_ready(0));
    }
    assert!(matches!(auth.poll_ready(&mut (), 0), Readiness::Ready));
    assert_eq!(auth.client().calls.get(), 1);
}

#[test]
fn failure_resets_then_one_new_fetch() {
    let script = Script::new().then(0, Err(server_error())).then(1, Ok(token("fresh", 300, 0)));
    let mut auth = KeycloakAuthInner::new(script);
    match auth.poll_ready(&mut (), 0) {
        Readiness::Failed(KeycloakError::FetchToken { status_code, response_text }) => {
            assert_eq!(status_code, 503);
            assert_eq!(response_text, "unavailable");
        }
        _ => panic!("expected the fetch failure"),
    }
    assert!(matches!(auth.state(), State::NotFetched));
    assert_eq!(auth.client().calls.get(), 1);
    assert!(matches!(auth.poll_ready(&mut (), 0), Readiness::NotReady));
    assert_eq!(auth.client().calls.get(), 2);
    assert!(matches!(auth.poll_ready(&mut (), 0), Readiness::Ready));
    assert_eq!(auth.client().calls.get(), 2);
    assert_eq!(auth.header_value(), "Bearer fresh");
}

#[test]
fn refresh_keeps_previous_credential() {
    let script = Script::new().then(0, Ok(token("old", 300, 0))).then(2, Ok(token("new", 300, 295_000)));
    let mut auth = KeycloakAuthInner::new(script);
    assert!(matches!(auth.poll_ready(&mut (), 0), Readiness::Ready));
    assert!(auth.can_skip_poll_ready(290_000));
    assert!(!auth.can_skip_poll_ready(295_000));
    assert!(matches!(auth.poll_ready(&mut (), 295_000), Readiness::NotReady));
    assert!(matches!(auth.state(), State::Refetching { .. }));
    assert_eq!(auth.header_value(), "Bearer old");
    assert!(matches!(auth.poll_ready(&mut (), 295_500), Readiness::NotReady));
    assert_eq!(auth.header_value(), "Bearer old");
    assert!(matches!(auth.poll_ready(&mut (), 296_000), Readiness::Ready));
    assert!(matches!(auth.state(), State::Fetched { .. }));
    assert_eq!(auth.header_value(), "Bearer new");
    assert_eq!(auth.client().calls.get(), 2);
}

#[test]
fn failed_refresh_drops_previous_credential() {
    let script = Script::new().then(0, Ok(token("old", 300, 0))).then(0, Err(server_error()));
    let mut auth = KeycloakAuthInner::new(script);
    assert!(matches!(auth.poll_ready(&mut (), 0), Readiness::Ready));
    assert!(matches!(auth.poll_ready(&mut (), 291_000), Readiness::Failed(_)));
    assert!(matches!(auth.state(), State::NotFetched));
}

#[test]
fn short_lived_token_refreshes_on_next_probe() {
    let script = Script::new().then(0, Ok(token("first", 1, 0))).then(0, Ok(token("second", 1, 10)));
    let mut auth = KeycloakAuthInner::new(script);
    assert!(matches!(auth.poll_ready(&mut (), 0), Readiness::Ready));
    assert_eq!(auth.client().calls.get(), 1);
    assert!(!auth.can_skip_poll_ready(10));
    assert!(matches!(auth.poll_ready(&mut (), 10), Readiness::Ready));
    assert_eq!(auth.client().calls.get(), 2);
    assert_eq!(auth.header_value(), "Bearer second");
}

#[test]
fn fails_twice_then_succeeds() {
    let script = Script::new()
        .then(0, Err(server_error()))
        .then(0, Err(server_error()))
        .then(0, Ok(token("third", 300, 0)));
    let mut auth = KeycloakAuthInner::new(script);
    assert!(matches!(auth.state(), State::NotFetched));
    assert!(matches!(auth.poll_ready(&mut (), 0), Readiness::Failed(_)));
    assert!(matches!(auth.state(), State::NotFetched));
    assert!(matches!(auth.poll_ready(&mut (), 0), Readiness::Failed(_)));
    assert!(matches!(auth.state(), State::NotFetched));
    assert!(matches!(auth.poll_ready(&mut (), 0), Readiness::Ready));
    assert!(matches!(auth.state(), State::Fetched { .. }));
    assert_eq!(auth.client().calls.get(), 3);
    assert_eq!(auth.header_value(), "Bearer third");
}

#[test]
fn middleware_readiness_mapping() {
    assert!(matches!(after_auth::<u8>(Readiness::NotReady), Readiness::NotReady));
    assert!(matches!(after_auth::<u8>(Readiness::Ready), Readiness::Ready));
    assert!(matches!(
        after_auth::<u8>(Readiness::Failed(server_error())),
        Readiness::Failed(ServiceError::Keycloak(KeycloakError::FetchToken { status_code: 503, .. }))
    ));
    assert!(matches!(after_inner::<u8>(None), Readiness::NotReady));
    assert!(matches!(after_inner::<u8>(Some(Ok(()))), Readiness::Ready));
    assert!(matches!(after_inner::<u8>(Some(Err(7))), Readiness::Failed(ServiceError::Service(7))));
}

#[test]
fn state_names() {
    let t = token("abc", 300, 0);
    assert_eq!(State::<()>::NotFetched.name(), "NotFetched");
    assert_eq!(State::Fetching { fut: () }.name(), "Fetching");
    assert_eq!(State::Refetching { fut: (), token: t.clone() }.name(), "Refetching");
    assert_eq!(State::<()>::Fetched { token: t }.name(), "Fetched");
}
