use vstd::prelude::*;

use crate::error::{fetch_outcome, Error};

verus! {

/// Where the client takes its credentials from.
#[derive(Debug, Clone, Copy)]
pub enum InitializationMethod<'a> {
    /// A service-account key file at the given path.
    File(&'a str),
    /// Application Default Credentials found in the environment.
    Environment,
}

/// The abstract form of an [`InitializationMethod`].
pub enum Source {
    File(Seq<char>),
    Environment,
}

impl<'a> View for InitializationMethod<'a> {
    type V = Source;

    open spec fn view(&self) -> Source {
        match *self {
            InitializationMethod::File(path) => Source::File(path@),
            InitializationMethod::Environment => Source::Environment,
        }
    }
}

/// The state of the cell that holds the authentication manager.
#[derive(Debug, Clone, Copy, PartialEq, Eq, Structural)]
pub enum Delegate {
    /// Not built yet, or the last attempt failed.
    Absent,
    /// One request is building it; the others wait.
    Building,
    /// Built; it is kept for the client's lifetime.
    Present,
}

/// The abstract form of a [`Client`].
pub struct ClientView {
    pub source: Source,
    pub scopes: Seq<Seq<char>>,
    pub delegate: Delegate,
}

/// What a token request has to do next.
#[derive(Debug)]
pub enum Step<'a> {
    /// Build the authentication manager from the given source, then report the outcome
    /// through [`Client::finish_build`].
    Build(InitializationMethod<'a>),
    /// Another request is building the manager: wait until it reports, then start again.
    Wait,
    /// Ask the manager for a token for these scopes.
    Fetch(&'a [&'a str]),
}

/// The abstract form of a [`Step`].
pub enum Action {
    Build(Source),
    Wait,
    Fetch(Seq<Seq<char>>),
}

/// The scopes as sequences of characters.
pub open spec fn scopes_view(scopes: &[&str]) -> Seq<Seq<char>> {
    scopes@.map_values(|s: &str| s@)
}

/// A result that carries scopes, with the scopes as sequences of characters.
pub open spec fn scopes_result_view(r: Result<&[&str], Error>) -> Result<Seq<Seq<char>>, Error> {
    match r {
        Ok(scopes) => Ok(scopes_view(scopes)),
        Err(e) => Err(e),
    }
}

impl<'a> View for Step<'a> {
    type V = Action;

    open spec fn view(&self) -> Action {
        match *self {
            Step::Build(method) => Action::Build(method@),
            Step::Wait => Action::Wait,
            Step::Fetch(scopes) => Action::Fetch(scopes_view(scopes)),
        }
    }
}

/// The error that a failed build of the manager yields: the key file could not be used,
/// or the environment offered no credentials.
pub open spec fn build_error(source: Source) -> Error {
    match source {
        Source::File(_) => Error::ServiceAccountError,
        Source::Environment => Error::EnvironmentError,
    }
}

/// A token request starts: it fetches with the manager once that exists, builds it when
/// nobody has, and waits while another request is building it.
pub open spec fn request_step(v: ClientView) -> (ClientView, Action) {
    match v.delegate {
        Delegate::Present => (v, Action::Fetch(v.scopes)),
        Delegate::Absent => (
            ClientView { delegate: Delegate::Building, ..v },
            Action::Build(v.source),
        ),
        Delegate::Building => (v, Action::Wait),
    }
}

/// The request that built the manager reports the outcome. A manager that was built is
/// kept and the request goes on to fetch with the client's scopes; a failure is not kept,
/// so that the next request tries again.
pub open spec fn build_step(v: ClientView, built: bool) -> (
    ClientView,
    Result<Seq<Seq<char>>, Error>,
) {
    if built {
        (ClientView { delegate: Delegate::Present, ..v }, Ok(v.scopes))
    } else {
        (ClientView { delegate: Delegate::Absent, ..v }, Err(build_error(v.source)))
    }
}

/// The outcome of a request that runs alone on a client whose manager is not being built
/// by another request: `built` says whether building the manager succeeds, where it has to
/// be built, and `fetched` whether the manager's token call succeeds. (While another request
/// is building the manager, this one would wait; the value then means nothing.)
pub open spec fn lone_request_outcome(v: ClientView, built: bool, fetched: bool) -> Result<
    (),
    Error,
> {
    let (v1, a) = request_step(v);
    match a {
        Action::Build(_) => match build_step(v1, built).1 {
            Ok(_) => fetch_outcome(fetched),
            Err(e) => Err(e),
        },
        _ => fetch_outcome(fetched),
    }
}

/// How many times the manager is built over `n` requests made one after another, where
/// every build succeeds.
pub open spec fn builds_in_sequence(v: ClientView, n: nat) -> nat
    decreases n,
{
    if n == 0 {
        0
    } else {
        let (v1, a) = request_step(v);
        match a {
            Action::Build(_) => 1 + builds_in_sequence(build_step(v1, true).0, (n - 1) as nat),
            _ => builds_in_sequence(v1, (n - 1) as nat),
        }
    }
}

/// The actions that `n` requests are given when all of them start before any reports back,
/// in the order they started, with the state they leave behind.
pub open spec fn concurrent_starts(v: ClientView, n: nat) -> (ClientView, Seq<Action>)
    decreases n,
{
    if n == 0 {
        (v, Seq::empty())
    } else {
        let (v1, actions) = concurrent_starts(v, (n - 1) as nat);
        let (v2, a) = request_step(v1);
        (v2, actions.push(a))
    }
}

/// A freshly made client.
pub open spec fn fresh(source: Source, scopes: Seq<Seq<char>>) -> ClientView {
    ClientView { source, scopes, delegate: Delegate::Absent }
}

/// With a key file that loads and a manager that hands out tokens, the first request of
/// a file client yields a token.
pub proof fn lemma_file_client_yields_token(path: Seq<char>, scopes: Seq<Seq<char>>)
    ensures
        lone_request_outcome(fresh(Source::File(path), scopes), true, true) == Ok::<(), Error>(()),
{
}

/// When the key file cannot be loaded, the request fails with `ServiceAccountError`,
/// whatever the token call would have done.
pub proof fn lemma_bad_key_file_is_service_account_error(
    path: Seq<char>,
    scopes: Seq<Seq<char>>,
    fetched: bool,
)
    ensures
        lone_request_outcome(fresh(Source::File(path), scopes), false, fetched)
            == Err::<(), Error>(Error::ServiceAccountError),
{
}

/// When the environment offers no credentials, the request fails with `EnvironmentError`,
/// whatever the token call would have done.
pub proof fn lemma_no_ambient_credentials_is_environment_error(
    scopes: Seq<Seq<char>>,
    fetched: bool,
)
    ensures
        lone_request_outcome(fresh(Source::Environment, scopes), false, fetched)
            == Err::<(), Error>(Error::EnvironmentError),
{
}

/// A failed token call yields `TokenError`, never a build error, for either source,
/// whether the manager was already there or was just built.
pub proof fn lemma_fetch_failure_is_token_error(v: ClientView, built: bool)
    requires
        v.delegate == Delegate::Present || (v.delegate == Delegate::Absent && built),
    ensures
        lone_request_outcome(v, built, false) == Err::<(), Error>(Error::TokenError),
{
}

/// Every token call is made with exactly the client's scopes, in their order: whether the
/// manager was there at the start of the request or was built by it.
pub proof fn lemma_fetch_uses_client_scopes(v: ClientView)
    ensures
        request_step(v).1 matches Action::Fetch(scopes) ==> scopes == v.scopes,
        request_step(v).1 is Build ==> build_step(request_step(v).0, true).1
            == Ok::<Seq<Seq<char>>, Error>(v.scopes),
        request_step(v).0.scopes == v.scopes,
        build_step(v, true).0.scopes == v.scopes,
        build_step(v, false).0.scopes == v.scopes,
{
}

proof fn lemma_no_builds_once_present(v: ClientView, n: nat)
    requires
        v.delegate == Delegate::Present,
    ensures
        builds_in_sequence(v, n) == 0,
    decreases n,
{
    if n > 0 {
        lemma_no_builds_once_present(v, (n - 1) as nat);
    }
}

/// Requests made one after another on a fresh client build the manager exactly once.
pub proof fn lemma_sequential_requests_build_once(v: ClientView, n: nat)
    requires
        v.delegate == Delegate::Absent,
        n >= 1,
    ensures
        builds_in_sequence(v, n) == 1,
{
    let v1 = build_step(request_step(v).0, true).0;
    lemma_no_builds_once_present(v1, (n - 1) as nat);
}

proof fn lemma_starts_at_rest(v: ClientView, a: Action, n: nat)
    requires
        request_step(v) == (v, a),
    ensures
        concurrent_starts(v, n).0 == v,
        concurrent_starts(v, n).1 =~= Seq::new(n, |i: int| a),
    decreases n,
{
    if n > 0 {
        lemma_starts_at_rest(v, a, (n - 1) as nat);
    }
}

/// When `n` requests start on a fresh client before any reports back, only the first is
/// told to build the manager and every other one waits. Once that build succeeds, each
/// request that starts again (the waiters, and any later one) fetches with the client's
/// scopes, so all of them use the one manager.
pub proof fn lemma_concurrent_requests_build_once(v: ClientView, n: nat, m: nat)
    requires
        v.delegate == Delegate::Absent,
        n >= 1,
    ensures
        ({
            let (w, actions) = concurrent_starts(v, n);
            let (built, scopes) = build_step(w, true);
            &&& actions.len() == n
            &&& actions[0] == Action::Build(v.source)
            &&& forall|i: int| 1 <= i < n ==> actions[i] == Action::Wait
            &&& w.delegate == Delegate::Building
            &&& scopes == Ok::<Seq<Seq<char>>, Error>(v.scopes)
            &&& built.delegate == Delegate::Present
            &&& concurrent_starts(built, m).1.len() == m
            &&& forall|i: int|
                0 <= i < m ==> concurrent_starts(built, m).1[i] == Action::Fetch(v.scopes)
        }),
{
    lemma_concurrent_tail(v, n);
    let built = build_step(concurrent_starts(v, n).0, true).0;
    lemma_starts_at_rest(built, Action::Fetch(v.scopes), m);
}

proof fn lemma_concurrent_tail(v: ClientView, n: nat)
    requires
        v.delegate == Delegate::Absent,
        n >= 1,
    ensures
        concurrent_starts(v, n).0 == request_step(v).0,
        concurrent_starts(v, n).1.len() == n,
        concurrent_starts(v, n).1[0] == Action::Build(v.source),
        forall|i: int| 1 <= i < n ==> concurrent_starts(v, n).1[i] == Action::Wait,
    decreases n,
{
    if n > 1 {
        lemma_concurrent_tail(v, (n - 1) as nat);
        let (v1, actions) = concurrent_starts(v, (n - 1) as nat);
        let (v2, a) = request_step(v1);
        assert(concurrent_starts(v, n).1 == actions.push(a));
    } else {
        assert(concurrent_starts(v, 0) == (v, Seq::<Action>::empty()));
    }
}

/// The client: a credential source, the scopes that every token is requested for, and the
/// state of the authentication manager.
pub struct Client<'a> {
    scopes: &'a [&'a str],
    initialization_method: InitializationMethod<'a>,
    delegate: Delegate,
}

impl<'a> View for Client<'a> {
    type V = ClientView;

    closed spec fn view(&self) -> ClientView {
        ClientView {
            source: self.initialization_method@,
            scopes: scopes_view(self.scopes),
            delegate: self.delegate,
        }
    }
}

impl<'a> Client<'a> {
    /// A client that takes its credentials from the service-account key file at `path`.
    /// Nothing is read until the first token request.
    pub fn from_file(path: &'a str, scopes: &'a [&'a str]) -> (c: Client<'a>)
        ensures
            c@ == (ClientView {
                source: Source::File(path@),
                scopes: scopes_view(scopes),
                delegate: Delegate::Absent,
            }),
    {
        Client {
            initialization_method: InitializationMethod::File(path),
            scopes,
            delegate: Delegate::Absent,
        }
    }

    /// A client that takes its credentials from the environment (Application Default
    /// Credentials). Nothing is discovered until the first token request.
    pub fn from_environment(scopes: &'a [&'a str]) -> (c: Client<'a>)
        ensures
            c@ == (ClientView {
                source: Source::Environment,
                scopes: scopes_view(scopes),
                delegate: Delegate::Absent,
            }),
    {
        Client {
            initialization_method: InitializationMethod::Environment,
            scopes,
            delegate: Delegate::Absent,
        }
    }

    /// The scopes that every token is requested for.
    pub fn scopes(&self) -> (r: &'a [&'a str])
        ensures
            scopes_view(r) == self@.scopes,
    {
        self.scopes
    }

    /// Starts a token request and says what it has to do first.
    pub fn start_request(&mut self) -> (s: Step<'a>)
        ensures
            (final(self)@, s@) == request_step(old(self)@),
    {
        match self.delegate {
            Delegate::Present => Step::Fetch(self.scopes),
            Delegate::Absent => {
                self.delegate = Delegate::Building;
                Step::Build(self.initialization_method)
            },
            Delegate::Building => Step::Wait,
        }
    }

    /// Reports whether the request that was told to build the manager succeeded. On
    /// success it returns the scopes to fetch a token for.
    pub fn finish_build(&mut self, built: bool) -> (r: Result<&'a [&'a str], Error>)
        requires
            old(self)@.delegate == Delegate::Building,
        ensures
            (final(self)@, scopes_result_view(r)) == build_step(old(self)@, built),
    {
        if built {
            self.delegate = Delegate::Present;
            Ok(self.scopes)
        } else {
            self.delegate = Delegate::Absent;
            match self.initialization_method {
                InitializationMethod::File(_) => Err(Error::ServiceAccountError),
                InitializationMethod::Environment => Err(Error::EnvironmentError),
            }
        }
    }
}

} // verus!
