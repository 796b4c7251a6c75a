//! The shared session: one pooled HTTP client that every exchange client of
//! the application may use in place of a client of its own.
//!
//! A manager starts without a session. `setup` builds the pooled client once;
//! later calls change nothing. `close` drops the manager's handle, and the
//! handles that clients took before stay good for as long as they hold them.

use crate::error::SdkError;
use crate::handle::share;
use crate::transport::build_pooled;
use reqwest::Client;
use std::sync::Arc;
use vstd::prelude::*;

verus! {

/// Milliseconds that a caller of `close` is advised to wait, so that requests
/// in flight on the pool can land before the last handle goes.
pub const CLOSE_GRACE_MILLIS: u64 = 200;

/// An open shared session: the pooled client and the size it was set up for.
pub struct SharedSession {
    pub client: Arc<Client>,
    pub max_connections: usize,
}

/// The state after `setup` for `max_connections` with the client `built`: a
/// session that is open stays as it is, otherwise one is opened.
pub open spec fn set_up(
    before: Option<SharedSession>,
    built: Arc<Client>,
    max_connections: usize,
) -> Option<SharedSession> {
    match before {
        Some(_) => before,
        None => Some(SharedSession { client: built, max_connections }),
    }
}

/// The size that a state reports: that of the open session, or 0.
pub open spec fn reported_max_connections(state: Option<SharedSession>) -> usize {
    match state {
        Some(session) => session.max_connections,
        None => 0,
    }
}

/// Setting up twice is setting up once: the second call finds the session
/// open and leaves it, and the reported size stays that of the first call.
pub proof fn lemma_setup_is_idempotent(
    before: Option<SharedSession>,
    first: Arc<Client>,
    first_max: usize,
    second: Arc<Client>,
    second_max: usize,
)
    ensures
        set_up(set_up(before, first, first_max), second, second_max) == set_up(
            before,
            first,
            first_max,
        ),
        before is None ==> reported_max_connections(
            set_up(set_up(before, first, first_max), second, second_max),
        ) == first_max,
{
}

/// Holder of the shared session.
pub struct SharedSessionManager {
    session: Option<SharedSession>,
}

impl SharedSessionManager {
    /// The session, if one is open.
    pub closed spec fn view(&self) -> Option<SharedSession> {
        self.session
    }

    /// A manager without a session.
    pub fn new() -> (manager: Self)
        ensures
            manager@ is None,
    {
        SharedSessionManager { session: None }
    }

    /// Opens the session around `client` unless one is open already.
    pub fn install(&mut self, client: Client, max_connections: usize)
        ensures
            final(self)@ == set_up(old(self)@, Arc::new(client), max_connections),
    {
        if self.session.is_none() {
            self.session = Some(SharedSession { client: Arc::new(client), max_connections });
        }
    }

    /// Opens the session around a client that was built for it, unless one is
    /// open already; or hands on the error of the building as it came and
    /// leaves the manager as it is.
    pub fn install_built(
        &mut self,
        built: Result<Client, SdkError>,
        max_connections: usize,
    ) -> (done: Result<(), SdkError>)
        ensures
            match built {
                Ok(client) => done is Ok && final(self)@ == set_up(
                    old(self)@,
                    Arc::new(client),
                    max_connections,
                ),
                Err(e) => done matches Err(same) && same == e && final(self)@ == old(self)@,
            },
    {
        match built {
            Ok(client) => {
                self.install(client, max_connections);
                Ok(())
            },
            Err(e) => Err(e),
        }
    }

    /// Builds the pooled client for `max_connections` connections and opens
    /// the session around it. With a session open already nothing is built
    /// and nothing changes. Where the client cannot be built the manager
    /// stays without a session and the error says why.
    pub fn setup(&mut self, max_connections: usize) -> (done: Result<(), SdkError>)
        ensures
            match done {
                Ok(_) => exists|built: Arc<Client>|
                    final(self)@ == set_up(old(self)@, built, max_connections),
                Err(e) => old(self)@ is None && final(self)@ is None && e is Http,
            },
            old(self)@ is Some ==> done is Ok,
    {
        if self.session.is_some() {
            assert(self@ == set_up(old(self)@, self@->0.client, max_connections));
            return Ok(());
        }
        let built = build_pooled(max_connections);
        let ghost outcome = built;
        let done = self.install_built(built, max_connections);
        proof {
            if outcome is Ok {
                assert(self@ == set_up(old(self)@, Arc::new(outcome->Ok_0), max_connections));
            }
        }
        done
    }

    /// Whether a session is open.
    pub fn is_initialized(&self) -> (open: bool)
        ensures
            open == (self@ is Some),
    {
        self.session.is_some()
    }

    /// A handle to the pooled client of the open session.
    pub fn get_client(&self) -> (client: Arc<Client>)
        requires
            self@ is Some,
        ensures
            client == self@->0.client,
    {
        share(&self.session.as_ref().unwrap().client)
    }

    /// Closes the session and says whether one was open. The handles that
    /// callers hold stay good.
    pub fn close(&mut self) -> (was_open: bool)
        ensures
            final(self)@ is None,
            was_open == (old(self)@ is Some),
    {
        let was_open = self.session.is_some();
        self.session = None;
        was_open
    }

    /// The size the open session was set up for, or 0 without a session.
    pub fn max_connections(&self) -> (n: usize)
        ensures
            n == reported_max_connections(self@),
    {
        match &self.session {
            Some(session) => session.max_connections,
            None => 0,
        }
    }
}

} // verus!
