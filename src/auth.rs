use vstd::prelude::*;

use crate::error::KeycloakError;
use crate::token::{expired_at, rendered_header, Token};

verus! {

/// What a readiness probe reports.
#[derive(Debug)]
pub enum Readiness<E> {
    /// A fetch is still running; probe again later.
    NotReady,
    /// A credential is available for stamping.
    Ready,
    /// The fetch failed; the next probe starts a new one.
    Failed(E),
}

/// Starts token fetches against the token endpoint, and counts them. A source
/// whose count has reached `u64::MAX` cannot start another fetch.
pub trait TokenSource<F> {
    /// How many fetches this source has started.
    spec fn fetches(&self) -> u64;

    /// Starts one fetch and returns the operation that carries it out.
    fn fetch_token_boxed(&mut self) -> (r: F)
        ensures
            final(self).fetches() == old(self).fetches() + 1,
    ;
}

/// A fetch in progress, advanced by repeated polls within the context `K`.
pub trait TokenOperation<K> {
    /// Advances the fetch: `None` while it runs, its result once it finished.
    fn poll_token(&mut self, cx: &mut K) -> Option<Result<Token, KeycloakError>>;
}

/// The credential lifecycle. `fut` is the fetch in flight, if any.
pub enum State<F> {
    NotFetched,
    Fetching { fut: F },
    Refetching { fut: F, token: Token },
    Fetched { token: Token },
}

impl<F> State<F> {
    /// The name of the state, for diagnostics.
    pub fn name(&self) -> (r: &'static str)
        ensures
            self is NotFetched ==> r@ == "NotFetched"@,
            self is Fetching ==> r@ == "Fetching"@,
            self is Refetching ==> r@ == "Refetching"@,
            self is Fetched ==> r@ == "Fetched"@,
    {
        match self {
            State::NotFetched => "NotFetched",
            State::Fetching { .. } => "Fetching",
            State::Refetching { .. } => "Refetching",
            State::Fetched { .. } => "Fetched",
        }
    }
}

/// The number of fetches that a state holds in flight.
pub open spec fn in_flight<F>(s: State<F>) -> nat {
    match s {
        State::Fetching { .. } => 1,
        State::Refetching { .. } => 1,
        _ => 0,
    }
}

/// Whether a probe at `now` must start a new fetch from this state.
pub open spec fn needs_fetch<F>(s: State<F>, now: u64) -> bool {
    match s {
        State::NotFetched => true,
        State::Fetched { token } => expired_at(token.expiration, now),
        _ => false,
    }
}

/// Whether a probe at `now` may report readiness without any transition.
pub open spec fn skip_allowed<F>(s: State<F>, now: u64) -> bool {
    match s {
        State::Fetched { token } => !expired_at(token.expiration, now),
        _ => false,
    }
}

/// The header value of an optional token.
pub open spec fn header_of(t: Option<Token>) -> Option<Seq<char>> {
    match t {
        Some(t) => Some(t.header_value@),
        None => None,
    }
}

/// The token that requests are stamped with in a state: the current one, or
/// during a refresh the previous one.
pub open spec fn stamping_token<F>(s: State<F>) -> Option<Token> {
    match s {
        State::Fetched { token } => Some(token),
        State::Refetching { token, .. } => Some(token),
        _ => None,
    }
}

/// The header value that requests are stamped with in a state.
pub open spec fn stamped_header<F>(s: State<F>) -> Option<Seq<char>> {
    header_of(stamping_token(s))
}

/// The state after polling the fetch `fut`, started while `previous` was the
/// credential in use, returned `polled`.
pub open spec fn settled_state<F>(
    fut: F,
    previous: Option<Token>,
    polled: Option<Result<Token, KeycloakError>>,
) -> State<F> {
    match polled {
        None => match previous {
            Some(token) => State::Refetching { fut, token },
            None => State::Fetching { fut },
        },
        Some(Ok(token)) => State::Fetched { token },
        Some(Err(_)) => State::NotFetched,
    }
}

/// What a probe reports after a poll returned `polled`.
pub open spec fn settled_readiness(polled: Option<Result<Token, KeycloakError>>) -> Readiness<
    KeycloakError,
> {
    match polled {
        None => Readiness::NotReady,
        Some(Ok(_)) => Readiness::Ready,
        Some(Err(e)) => Readiness::Failed(e),
    }
}

/// Whether `s` and `r` are what some poll of some fetch, started while
/// `previous` was the credential in use, leads to.
pub open spec fn settles_into<F>(s: State<F>, previous: Option<Token>, r: Readiness<KeycloakError>) -> bool {
    exists|f: F, p: Option<Result<Token, KeycloakError>>|
        s == #[trigger] settled_state(f, previous, p) && r == settled_readiness(p)
}

/// How many fetches a probe at `now` starts from state `s`.
pub open spec fn fetches_started_by<F>(s: State<F>, now: u64) -> int {
    if needs_fetch(s, now) {
        1
    } else {
        0
    }
}

/// Decides the next state and the report once the fetch `fut` has been
/// polled. A finished fetch is dropped: on success its token becomes
/// current, on failure the lifecycle starts over.
pub fn after_poll<F>(
    fut: F,
    previous: Option<Token>,
    polled: Option<Result<Token, KeycloakError>>,
) -> (r: (State<F>, Readiness<KeycloakError>))
    ensures
        r.0 == settled_state(fut, previous, polled),
        r.1 == settled_readiness(polled),
{
    match polled {
        None => match previous {
            Some(token) => (State::Refetching { fut, token }, Readiness::NotReady),
            None => (State::Fetching { fut }, Readiness::NotReady),
        },
        Some(Ok(token)) => (State::Fetched { token }, Readiness::Ready),
        Some(Err(e)) => (State::NotFetched, Readiness::Failed(e)),
    }
}

/// One credential stream: the lifecycle state and the source of fetches.
pub struct KeycloakAuthInner<C, F> {
    state: State<F>,
    client: C,
}

impl<C, F> KeycloakAuthInner<C, F> {
    pub closed spec fn spec_state(&self) -> State<F> {
        self.state
    }

    pub closed spec fn spec_client(&self) -> C {
        self.client
    }

    /// A lifecycle with no credential and no fetch yet.
    pub fn new(client: C) -> (r: Self)
        ensures
            r.spec_state() is NotFetched,
            r.spec_client() == client,
    {
        KeycloakAuthInner { state: State::NotFetched, client }
    }

    /// The current lifecycle state.
    pub fn state(&self) -> (r: &State<F>)
        ensures
            *r == self.spec_state(),
    {
        &self.state
    }

    /// The source that fetches are started from.
    pub fn client(&self) -> (r: &C)
        ensures
            *r == self.spec_client(),
    {
        &self.client
    }

    /// Whether a probe at `now` can report readiness at once: a credential is
    /// held and is not due for refresh.
    pub fn can_skip_poll_ready(&self, now: u64) -> (r: bool)
        ensures
            r == skip_allowed(self.spec_state(), now),
    {
        match &self.state {
            State::Fetched { token } => !token.is_expired(now),
            _ => false,
        }
    }

    /// The header value to stamp requests with. Only meaningful once a probe
    /// has reported readiness.
    pub fn header_value(&self) -> (r: String)
        requires
            stamped_header(self.spec_state()) is Some,
        ensures
            stamped_header(self.spec_state()) == Some(r@),
    {
        match &self.state {
            State::Fetched { token } => token.header_value.clone(),
            State::Refetching { token, .. } => token.header_value.clone(),
            _ => {
                proof {
                    assert(false);
                }
                String::new()
            },
        }
    }

    /// Polls the fetch `fut`, started while `previous` was the credential in
    /// use, and installs the resulting state.
    fn poll_in_flight<K>(&mut self, cx: &mut K, fut: F, previous: Option<Token>) -> (r: Readiness<
        KeycloakError,
    >) where F: TokenOperation<K>
        ensures
            final(self).client == old(self).client,
            settles_into(final(self).state, previous, r),
    {
        let mut fut = fut;
        let polled = fut.poll_token(cx);
        let ghost polled_fut = fut;
        let ghost p = polled;
        let (next, r) = after_poll(fut, previous, polled);
        self.state = next;
        assert(self.state == settled_state(polled_fut, previous, p) && r == settled_readiness(p));
        r
    }

    /// The readiness probe at `now`. Starts a fetch when no credential is
    /// held or the held one is due, polls the fetch in flight, and reports.
    /// A failed fetch leaves the lifecycle with nothing, so the next probe
    /// starts afresh.
    pub fn poll_ready<K>(&mut self, cx: &mut K, now: u64) -> (r: Readiness<KeycloakError>) where
        C: TokenSource<F>,
        F: TokenOperation<K>,
        ensures
            final(self).spec_client().fetches() == old(self).spec_client().fetches()
                + fetches_started_by(old(self).spec_state(), now),
            skip_allowed(old(self).spec_state(), now) ==> r is Ready && final(self).spec_state()
                == old(self).spec_state(),
            !skip_allowed(old(self).spec_state(), now) ==> settles_into(
                final(self).spec_state(),
                stamping_token(old(self).spec_state()),
                r,
            ),
            r is Ready ==> final(self).spec_state() is Fetched,
            r is Failed ==> final(self).spec_state() is NotFetched,
            r is NotReady ==> in_flight(final(self).spec_state()) == 1 && stamping_token(
                final(self).spec_state(),
            ) == stamping_token(old(self).spec_state()),
    {
        let mut state = State::NotFetched;
        std::mem::swap(&mut self.state, &mut state);
        match state {
            State::NotFetched => {
                let fut = self.client.fetch_token_boxed();
                self.poll_in_flight(cx, fut, None)
            },
            State::Fetching { fut } => self.poll_in_flight(cx, fut, None),
            State::Refetching { fut, token } => self.poll_in_flight(cx, fut, Some(token)),
            State::Fetched { token } => {
                if token.is_expired(now) {
                    let fut = self.client.fetch_token_boxed();
                    self.poll_in_flight(cx, fut, Some(token))
                } else {
                    self.state = State::Fetched { token };
                    Readiness::Ready
                }
            },
        }
    }
}

/// Single flight: a state holds at most one fetch, and a probe starts a new
/// fetch only from a state that holds none.
pub proof fn lemma_single_flight<F>(s: State<F>, now: u64)
    ensures
        in_flight(s) <= 1,
        needs_fetch(s, now) ==> in_flight(s) == 0,
{
}

/// Three probes whose fetches fail twice and then succeed pass through
/// `NotFetched` after each failure, report each failure, and end `Fetched`
/// with the token of the third fetch.
pub proof fn lemma_fail_fail_succeed<F>(
    start: State<F>,
    f1: F,
    f2: F,
    f3: F,
    e1: KeycloakError,
    e2: KeycloakError,
    t: Token,
    now: u64,
)
    requires
        start is NotFetched,
    ensures
        needs_fetch(start, now),
        settled_state(f1, stamping_token(start), Some(Err(e1))) == start,
        settled_readiness(Some(Err(e1))) == Readiness::<KeycloakError>::Failed(e1),
        settled_state(f2, stamping_token(start), Some(Err(e2))) == start,
        settled_readiness(Some(Err(e2))) == Readiness::<KeycloakError>::Failed(e2),
        stamping_token(settled_state(f3, stamping_token(start), Some(Ok(t)))) == Some(t),
        settled_state(f3, stamping_token(start), Some(Ok(t))) is Fetched,
        settled_readiness(Some(Ok(t))) is Ready,
{
}

/// Once a fetch succeeds, requests are stamped with exactly the type and the
/// access token of its answer.
pub proof fn lemma_stamp_after_success<F>(
    fut: F,
    previous: Option<Token>,
    t: Token,
    token_type: Seq<char>,
    access_token: Seq<char>,
)
    requires
        t.header_value@ == rendered_header(token_type, access_token),
    ensures
        settled_readiness(Some(Ok(t))) is Ready,
        stamped_header(settled_state(fut, previous, Some(Ok(t)))) == Some(
            rendered_header(token_type, access_token),
        ),
{
}

/// A failed fetch leaves the lifecycle with nothing in flight and no
/// credential, so the next probe starts exactly one new fetch.
pub proof fn lemma_failure_resets<F>(fut: F, previous: Option<Token>, e: KeycloakError, now: u64)
    ensures
        settled_state(fut, previous, Some(Err(e))) is NotFetched,
        settled_readiness(Some(Err(e))) == Readiness::<KeycloakError>::Failed(e),
        in_flight(settled_state(fut, previous, Some(Err(e)))) == 0,
        needs_fetch(settled_state(fut, previous, Some(Err(e))), now),
{
}

/// While a refresh runs, requests are stamped with the previous credential,
/// also after polls that find the refresh unfinished.
pub proof fn lemma_refresh_keeps_previous<F>(fut: F, token: Token, later: F)
    ensures
        stamped_header(State::Refetching { fut, token }) == Some(token.header_value@),
        stamped_header(settled_state(later, Some(token), None)) == Some(token.header_value@),
{
}

} // verus!
