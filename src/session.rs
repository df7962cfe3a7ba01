use vstd::prelude::*;
use crate::event_processor::{EventProcessor, ProcessorState, fresh_view};
use crate::relay::{
    RelayResolver, RelayRole, TransportError, filter_connected, fresh_urls, urls_view,
};

verus! {

/// Settings of the process-wide transport session.
#[derive(Debug)]
pub struct NostrManagerSettings {
    /// Timeout of network queries and fetches, in seconds.
    pub timeout_secs: u64,
    /// The default relays every session connects to.
    pub relays: Vec<String>,
    pub blossom_server: String,
}

pub open spec fn default_relay_urls(dev: bool) -> Seq<Seq<char>> {
    if dev {
        seq!["ws://localhost:8080"@, "ws://localhost:7777"@, "wss://purplepag.es"@]
    } else {
        seq![
            "wss://relay.damus.io"@,
            "wss://purplepag.es"@,
            "wss://relay.primal.net"@,
            "wss://nos.lol"@,
        ]
    }
}

pub open spec fn default_blossom_server(dev: bool) -> Seq<char> {
    if dev {
        "http://localhost:3000"@
    } else {
        "https://blossom.primal.net"@
    }
}

impl NostrManagerSettings {
    /// The settings of a development build (`dev`) or of a release build.
    pub fn default_for(dev: bool) -> (s: NostrManagerSettings)
        ensures
            s.timeout_secs == 3,
            urls_view(s.relays@) == default_relay_urls(dev),
            s.blossom_server@ == default_blossom_server(dev),
    {
        let mut relays: Vec<String> = Vec::new();
        if dev {
            relays.push("ws://localhost:8080".to_owned());
            relays.push("ws://localhost:7777".to_owned());
            relays.push("wss://purplepag.es".to_owned());
        } else {
            relays.push("wss://relay.damus.io".to_owned());
            relays.push("wss://purplepag.es".to_owned());
            relays.push("wss://relay.primal.net".to_owned());
            relays.push("wss://nos.lol".to_owned());
        }
        let blossom_server = if dev {
            "http://localhost:3000".to_owned()
        } else {
            "https://blossom.primal.net".to_owned()
        };
        assert(urls_view(relays@) =~= default_relay_urls(dev));
        NostrManagerSettings { timeout_secs: 3, relays, blossom_server }
    }
}

/// Where a session stands in its activation sequence.
#[derive(Debug, Clone, Copy, PartialEq, Eq, Structural)]
pub enum SessionPhase {
    /// No identity was ever activated; the default relays are connected.
    Unset,
    /// The last activation failed; no identity is active.
    Invalid,
    /// The old processor is drained; the transport is to be reset.
    ResetPending,
    /// The signing credential of the new identity is to be installed.
    CredentialPending,
    /// The default relays are to be connected.
    DefaultsPending,
    /// The identity's own relays are being resolved and connected.
    UserRelaysPending,
    /// A new event processor is to be installed.
    ProcessorPending,
    /// The subscription and backfill tasks are to be spawned.
    TasksPending,
    /// The identity is active.
    Active,
}

pub open spec fn is_settled(p: SessionPhase) -> bool {
    p == SessionPhase::Unset || p == SessionPhase::Invalid || p == SessionPhase::Active
}

/// Errors that abort an activation.
#[derive(Debug, Clone, Copy, PartialEq, Eq, Structural)]
pub enum NostrManagerError {
    /// The transport failed to connect the default relays.
    Client,
    /// No signing credential could be had for the identity.
    SecretsStoreError,
    /// The old event processor did not drain within its grace period.
    FailedToShutdownEventProcessor,
    /// The current processor does not accept events (it is shut down, or
    /// not yet installed).
    FailedToQueueEvent,
    /// An event was offered on behalf of an identity that is not the
    /// session's.
    WrongIdentity,
}

/// A missing or invalid signing credential.
#[derive(Debug, Clone, Copy, PartialEq, Eq, Structural)]
pub struct CredentialError;

/// The session coordinator: it owns the session's relay set, its installed
/// credential and its event processor, and sequences an activation.
///
/// The caller connects the default relays before `new`. It then performs
/// the transport work of each step and reports it: `begin_activation`,
/// `transport_reset`, `credential_installed`, `defaults_connected`, then (for release builds) `resolver_for` and
/// `relay_connected` for each role and `user_relays_done`, then
/// `install_processor` and `tasks_spawned`.
pub struct NostrManager<E> {
    settings: NostrManagerSettings,
    resolve_user_relays: bool,
    phase: SessionPhase,
    identity: Option<String>,
    credential: Option<String>,
    connected: Vec<String>,
    roles: Vec<Option<RelayRole>>,
    processor: EventProcessor<E>,
    degraded: bool,
    retired: Ghost<Option<ProcessorState>>,
}

/// What a session holds.
pub struct SessionView<E> {
    pub phase: SessionPhase,
    /// The identity active, or being activated.
    pub identity: Option<Seq<char>>,
    /// The identity whose signing credential the transport holds.
    pub credential: Option<Seq<char>>,
    /// The relays the transport session is connected to.
    pub connected: Seq<Seq<char>>,
    /// The role of each connected relay, `None` for a default relay.
    pub connected_roles: Seq<Option<RelayRole>>,
    pub processor: crate::event_processor::ProcessorView<E>,
    /// Whether the last activation could not start its background tasks.
    pub degraded: bool,
    /// The state of the processor replaced at the last install.
    pub retired: Option<ProcessorState>,
}

/// The relay set connected from the default relays: each once, untagged.
pub open spec fn default_roles(n: nat) -> Seq<Option<RelayRole>> {
    Seq::new(n, |i: int| None::<RelayRole>)
}

fn default_relay_set(relays: &Vec<String>) -> (r: (Vec<String>, Vec<Option<RelayRole>>))
    ensures
        urls_view(r.0@) == fresh_urls(urls_view(relays@), Seq::empty()),
        urls_view(r.0@).no_duplicates(),
        r.1@ == default_roles(r.0@.len()),
{
    let none: Vec<String> = Vec::new();
    assert(urls_view(none@) =~= Seq::<Seq<char>>::empty());
    let urls = filter_connected(relays, &none);
    proof {
        crate::relay::lemma_fresh_urls_are_new(urls_view(relays@), Seq::empty());
    }
    let mut roles: Vec<Option<RelayRole>> = Vec::new();
    while roles.len() < urls.len()
        invariant
            roles.len() <= urls.len(),
            roles@ == default_roles(roles@.len()),
        decreases urls.len() - roles.len(),
    {
        roles.push(None);
        assert(roles@ =~= default_roles(roles@.len()));
    }
    (urls, roles)
}

pub open spec fn opt_view(o: Option<String>) -> Option<Seq<char>> {
    match o {
        Some(s) => Some(s@),
        None => None,
    }
}

impl<E> NostrManager<E> {
    pub closed spec fn view(&self) -> SessionView<E> {
        SessionView {
            phase: self.phase,
            identity: opt_view(self.identity),
            credential: opt_view(self.credential),
            connected: urls_view(self.connected@),
            connected_roles: self.roles@,
            processor: self.processor.view(),
            degraded: self.degraded,
            retired: self.retired@,
        }
    }

    pub closed spec fn default_relays(&self) -> Seq<Seq<char>> {
        urls_view(self.settings.relays@)
    }

    pub closed spec fn timeout_spec(&self) -> u64 {
        self.settings.timeout_secs
    }

    pub closed spec fn resolves_user_relays(&self) -> bool {
        self.resolve_user_relays
    }

    pub closed spec fn processor_wf(&self) -> bool {
        self.processor.wf()
    }

    pub open spec fn wf(&self) -> bool {
        let v = self.view();
        &&& self.processor_wf()
        &&& v.connected.no_duplicates()
        &&& v.connected_roles.len() == v.connected.len()
        &&& !is_settled(v.phase) ==> v.identity is Some
        &&& v.phase == SessionPhase::Active ==> v.identity is Some
        &&& (v.phase == SessionPhase::ResetPending || v.phase == SessionPhase::CredentialPending
            || v.phase == SessionPhase::DefaultsPending || v.phase == SessionPhase::UserRelaysPending
            || v.phase == SessionPhase::ProcessorPending) ==> v.processor.state
            == ProcessorState::Stopped
        &&& (v.phase == SessionPhase::DefaultsPending || v.phase == SessionPhase::UserRelaysPending
            || v.phase == SessionPhase::ProcessorPending || v.phase == SessionPhase::TasksPending
            || v.phase == SessionPhase::Active) ==> v.credential == v.identity
        &&& v.phase == SessionPhase::CredentialPending ==> v.credential is None && v.connected.len()
            == 0
        &&& (v.phase == SessionPhase::TasksPending || v.phase == SessionPhase::Active) ==> (
        v.processor.state == ProcessorState::Running && v.retired == Some(ProcessorState::Stopped))
    }

    /// A coordinator with no active identity, once the caller added and
    /// connected the default relays (`defaults`); a transport failure there
    /// is an error. With `resolve_user_relays` unset (development builds)
    /// activations connect only the default relays.
    pub fn new(
        settings: NostrManagerSettings,
        resolve_user_relays: bool,
        defaults: Result<(), TransportError>,
    ) -> (r: Result<NostrManager<E>, NostrManagerError>)
        ensures
            defaults is Err ==> r == Err::<NostrManager<E>, NostrManagerError>(
                NostrManagerError::Client,
            ),
            defaults is Ok ==> r is Ok && ({
                let m = r->Ok_0;
                &&& m.wf()
                &&& m.view() == (SessionView {
                    phase: SessionPhase::Unset,
                    identity: None,
                    credential: None,
                    connected: fresh_urls(urls_view(settings.relays@), Seq::empty()),
                    connected_roles: default_roles(m.view().connected.len()),
                    processor: fresh_view::<E>(),
                    degraded: false,
                    retired: None,
                })
                &&& m.default_relays() == urls_view(settings.relays@)
                &&& m.timeout_spec() == settings.timeout_secs
                &&& m.resolves_user_relays() == resolve_user_relays
            }),
    {
        if defaults.is_err() {
            return Err(NostrManagerError::Client);
        }
        let (connected, roles) = default_relay_set(&settings.relays);
        let m = NostrManager {
            settings,
            resolve_user_relays,
            phase: SessionPhase::Unset,
            identity: None,
            credential: None,
            connected,
            roles,
            processor: EventProcessor::new(),
            degraded: false,
            retired: Ghost(None),
        };
        Ok(m)
    }

    /// The settings are never changed by a step.
    pub open spec fn same_settings(&self, other: &Self) -> bool {
        &&& self.default_relays() == other.default_relays()
        &&& self.timeout_spec() == other.timeout_spec()
        &&& self.resolves_user_relays() == other.resolves_user_relays()
    }

    /// Step 1: drains the current processor into `drained`, at most `grace`
    /// events. On success the activation of `pubkey` goes on; on timeout it is
    /// aborted and the session is left invalid.
    pub fn begin_activation(&mut self, pubkey: String, grace: usize, drained: &mut Vec<E>) -> (r:
        Result<(), NostrManagerError>)
        requires
            old(self).wf(),
            is_settled(old(self).view().phase),
        ensures
            final(self).wf(),
            final(self).same_settings(old(self)),
            old(self).view().processor.queue.len() <= grace ==> r is Ok && final(self).view() == (
            SessionView {
                phase: SessionPhase::ResetPending,
                identity: Some(pubkey@),
                processor: crate::event_processor::ProcessorView {
                    state: ProcessorState::Stopped,
                    queue: Seq::empty(),
                },
                ..old(self).view()
            }) && final(drained)@ == old(drained)@ + old(self).view().processor.queue,
            old(self).view().processor.queue.len() > grace ==> r == Err::<(), NostrManagerError>(
                NostrManagerError::FailedToShutdownEventProcessor,
            ) && final(self).view() == (SessionView {
                phase: SessionPhase::Invalid,
                identity: None,
                processor: crate::event_processor::ProcessorView {
                    state: ProcessorState::Draining,
                    queue: old(self).view().processor.queue.skip(grace as int),
                },
                ..old(self).view()
            }) && final(drained)@ == old(drained)@ + old(self).view().processor.queue.take(
                grace as int,
            ),
    {
        match self.processor.shutdown(grace, drained) {
            Ok(()) => {
                self.phase = SessionPhase::ResetPending;
                self.identity = Some(pubkey);
                Ok(())
            },
            Err(_) => {
                self.phase = SessionPhase::Invalid;
                self.identity = None;
                Err(NostrManagerError::FailedToShutdownEventProcessor)
            },
        }
    }

    /// Step 2: the transport dropped every relay connection and subscription.
    pub fn transport_reset(&mut self)
        requires
            old(self).wf(),
            old(self).view().phase == SessionPhase::ResetPending,
        ensures
            final(self).wf(),
            final(self).same_settings(old(self)),
            final(self).view() == (SessionView {
                phase: SessionPhase::CredentialPending,
                credential: None,
                connected: Seq::empty(),
                connected_roles: Seq::empty(),
                ..old(self).view()
            }),
    {
        self.phase = SessionPhase::CredentialPending;
        self.credential = None;
        self.connected = Vec::new();
        self.roles = Vec::new();
        assert(self.view().connected =~= Seq::<Seq<char>>::empty());
        assert(self.view().connected_roles =~= Seq::<Option<RelayRole>>::empty());
    }

    /// Step 3: the new identity's signing credential was installed, or could
    /// not be had, which aborts the activation.
    pub fn credential_installed(&mut self, outcome: Result<(), CredentialError>) -> (r: Result<
        (),
        NostrManagerError,
    >)
        requires
            old(self).wf(),
            old(self).view().phase == SessionPhase::CredentialPending,
        ensures
            final(self).wf(),
            final(self).same_settings(old(self)),
            outcome is Ok ==> r is Ok && final(self).view() == (SessionView {
                phase: SessionPhase::DefaultsPending,
                credential: old(self).view().identity,
                ..old(self).view()
            }),
            outcome is Err ==> r == Err::<(), NostrManagerError>(
                NostrManagerError::SecretsStoreError,
            ) && final(self).view() == (SessionView {
                phase: SessionPhase::Invalid,
                identity: None,
                ..old(self).view()
            }),
    {
        match outcome {
            Ok(()) => {
                self.credential = self.identity.clone();
                self.phase = SessionPhase::DefaultsPending;
                Ok(())
            },
            Err(_) => {
                self.phase = SessionPhase::Invalid;
                self.identity = None;
                Err(NostrManagerError::SecretsStoreError)
            },
        }
    }

    /// Step 4: the default relays were added and connected, or the transport
    /// failed, which aborts the activation.
    pub fn defaults_connected(&mut self, outcome: Result<(), TransportError>) -> (r: Result<
        (),
        NostrManagerError,
    >)
        requires
            old(self).wf(),
            old(self).view().phase == SessionPhase::DefaultsPending,
        ensures
            final(self).wf(),
            final(self).same_settings(old(self)),
            outcome is Ok ==> r is Ok && final(self).view() == (SessionView {
                phase: if old(self).resolves_user_relays() {
                    SessionPhase::UserRelaysPending
                } else {
                    SessionPhase::ProcessorPending
                },
                connected: fresh_urls(old(self).default_relays(), Seq::empty()),
                connected_roles: default_roles(final(self).view().connected.len()),
                ..old(self).view()
            }),
            outcome is Err ==> r == Err::<(), NostrManagerError>(NostrManagerError::Client)
                && final(self).view() == (SessionView {
                phase: SessionPhase::Invalid,
                identity: None,
                ..old(self).view()
            }),
    {
        match outcome {
            Ok(()) => {
                let (connected, roles) = default_relay_set(&self.settings.relays);
                self.connected = connected;
                self.roles = roles;
                self.phase = if self.resolve_user_relays {
                    SessionPhase::UserRelaysPending
                } else {
                    SessionPhase::ProcessorPending
                };
                Ok(())
            },
            Err(_) => {
                self.phase = SessionPhase::Invalid;
                self.identity = None;
                Err(NostrManagerError::Client)
            },
        }
    }

    /// Step 5: a resolver for `role`, which leaves out the relays connected
    /// already.
    pub fn resolver_for(&self, role: RelayRole) -> (r: RelayResolver)
        requires
            self.wf(),
            self.view().phase == SessionPhase::UserRelaysPending,
        ensures
            r.wf(),
            r.relay_role() == role,
            r.connected() == self.view().connected,
            r.outcomes().len() == 0,
    {
        let conn = self.connected.clone();
        assert(conn@ =~= self.connected@);
        RelayResolver::new(role, conn)
    }

    /// Step 5: the transport connected `url` for `role`. A URL connected
    /// already is not added twice.
    pub fn relay_connected(&mut self, role: RelayRole, url: String)
        requires
            old(self).wf(),
            old(self).view().phase == SessionPhase::UserRelaysPending,
        ensures
            final(self).wf(),
            final(self).same_settings(old(self)),
            final(self).view() == (SessionView {
                connected: if old(self).view().connected.contains(url@) {
                    old(self).view().connected
                } else {
                    old(self).view().connected.push(url@)
                },
                connected_roles: if old(self).view().connected.contains(url@) {
                    old(self).view().connected_roles
                } else {
                    old(self).view().connected_roles.push(Some(role))
                },
                ..old(self).view()
            }),
    {
        let mut found = false;
        let mut i: usize = 0;
        while i < self.connected.len()
            invariant
                i <= self.connected.len(),
                found == exists|k: int| 0 <= k < i && self.connected@[k]@ == url@,
            decreases self.connected.len() - i,
        {
            if self.connected[i] == url {
                found = true;
            }
            i = i + 1;
        }
        proof {
            let c = urls_view(self.connected@);
            if found {
                let k = choose|k: int| 0 <= k < i && self.connected@[k]@ == url@;
                assert(c[k] == url@);
            } else {
                assert forall|k: int| 0 <= k < c.len() implies c[k] != url@ by {}
            }
        }
        if !found {
            let ghost before = urls_view(self.connected@);
            self.connected.push(url);
            self.roles.push(Some(role));
            assert(urls_view(self.connected@) =~= before.push(url@));
        }
    }

    /// Step 5 is over: every role was resolved.
    pub fn user_relays_done(&mut self)
        requires
            old(self).wf(),
            old(self).view().phase == SessionPhase::UserRelaysPending,
        ensures
            final(self).wf(),
            final(self).same_settings(old(self)),
            final(self).view() == (SessionView { phase: SessionPhase::ProcessorPending, ..old(self).view() }),
    {
        self.phase = SessionPhase::ProcessorPending;
    }

    /// Step 6: installs a fresh processor in place of the stopped one.
    pub fn install_processor(&mut self)
        requires
            old(self).wf(),
            old(self).view().phase == SessionPhase::ProcessorPending,
        ensures
            final(self).wf(),
            final(self).same_settings(old(self)),
            old(self).view().processor.state == ProcessorState::Stopped,
            final(self).view() == (SessionView {
                phase: SessionPhase::TasksPending,
                processor: fresh_view::<E>(),
                retired: Some(ProcessorState::Stopped),
                ..old(self).view()
            }),
    {
        let ghost old_state = self.processor.view().state;
        self.processor = EventProcessor::new();
        self.retired = Ghost(Some(old_state));
        self.phase = SessionPhase::TasksPending;
    }

    /// Step 7: the subscription and backfill tasks were spawned, or failed to
    /// start; either way the identity is active, degraded in the second case.
    pub fn tasks_spawned(&mut self, started: bool)
        requires
            old(self).wf(),
            old(self).view().phase == SessionPhase::TasksPending,
        ensures
            final(self).wf(),
            final(self).same_settings(old(self)),
            final(self).view() == (SessionView {
                phase: SessionPhase::Active,
                degraded: !started,
                ..old(self).view()
            }),
    {
        self.phase = SessionPhase::Active;
        self.degraded = !started;
    }

    /// Offers an event that a background task of identity `pubkey` received.
    /// It is refused when `pubkey` is not the session's identity, so that a
    /// superseded identity's task cannot feed the new identity's processor,
    /// and when the current processor does not accept events.
    pub fn enqueue_for(&mut self, pubkey: &String, event: E) -> (r: Result<(), NostrManagerError>)
        requires
            old(self).wf(),
        ensures
            final(self).wf(),
            final(self).same_settings(old(self)),
            old(self).view().identity != Some(pubkey@) ==> r == Err::<(), NostrManagerError>(
                NostrManagerError::WrongIdentity,
            ) && final(self).view() == old(self).view(),
            old(self).view().identity == Some(pubkey@) ==> final(self).view() == (SessionView {
                processor: crate::event_processor::enqueue_spec(old(self).view().processor, event),
                ..old(self).view()
            }) && r == (if old(self).view().processor.state == ProcessorState::Running {
                Ok::<(), NostrManagerError>(())
            } else {
                Err(NostrManagerError::FailedToQueueEvent)
            }),
    {
        let same = match &self.identity {
            Some(id) => *id == *pubkey,
            None => false,
        };
        if !same {
            return Err(NostrManagerError::WrongIdentity);
        }
        match self.processor.enqueue(event) {
            Ok(()) => Ok(()),
            Err(_) => Err(NostrManagerError::FailedToQueueEvent),
        }
    }

    /// Hands the oldest queued event to the worker.
    pub fn next_event(&mut self) -> (r: Option<E>)
        requires
            old(self).wf(),
        ensures
            final(self).wf(),
            final(self).same_settings(old(self)),
            final(self).view().phase == old(self).view().phase,
            final(self).view().processor.state == old(self).view().processor.state,
            old(self).view().processor.queue.len() == 0 ==> r is None && final(self).view()
                == old(self).view(),
            old(self).view().processor.queue.len() > 0 ==> r == Some(
                old(self).view().processor.queue[0],
            ) && final(self).view() == (SessionView {
                processor: crate::event_processor::ProcessorView {
                    state: old(self).view().processor.state,
                    queue: old(self).view().processor.queue.drop_first(),
                },
                ..old(self).view()
            }),
    {
        self.processor.next_event()
    }

    /// Number of events queued in the current processor.
    pub fn queued_events(&self) -> (n: usize)
        ensures
            n == self.view().processor.queue.len(),
    {
        self.processor.len()
    }

    pub fn phase(&self) -> (p: SessionPhase)
        ensures
            p == self.view().phase,
    {
        self.phase
    }

    pub fn timeout_secs(&self) -> (t: u64)
        ensures
            t == self.timeout_spec(),
    {
        self.settings.timeout_secs
    }

    /// The default relays.
    pub fn relays(&self) -> (r: &Vec<String>)
        ensures
            urls_view(r@) == self.default_relays(),
    {
        &self.settings.relays
    }

    /// The relays the transport session is connected to.
    pub fn connected_relays(&self) -> (r: &Vec<String>)
        ensures
            urls_view(r@) == self.view().connected,
    {
        &self.connected
    }

    /// The role of each connected relay, `None` for a default relay.
    pub fn connected_roles(&self) -> (r: &Vec<Option<RelayRole>>)
        ensures
            r@ == self.view().connected_roles,
    {
        &self.roles
    }

    /// The identity active, or being activated.
    pub fn identity(&self) -> (r: &Option<String>)
        ensures
            opt_view(*r) == self.view().identity,
    {
        &self.identity
    }

    /// The identity whose signing credential the transport holds.
    pub fn credential(&self) -> (r: &Option<String>)
        ensures
            opt_view(*r) == self.view().credential,
    {
        &self.credential
    }

    pub fn is_degraded(&self) -> (r: bool)
        ensures
            r == self.view().degraded,
    {
        self.degraded
    }
}

/// After an activation succeeds the session holds exactly one processor: a
/// running one, installed after the processor it replaced had stopped; and
/// the transport holds the credential of the identity activated.
pub proof fn lemma_active_session_has_one_live_processor<E>(m: NostrManager<E>)
    requires
        m.wf(),
        m.view().phase == SessionPhase::Active,
    ensures
        m.view().processor.state == ProcessorState::Running,
        m.view().retired == Some(ProcessorState::Stopped),
        m.view().identity is Some,
        m.view().credential == m.view().identity,
{
}

/// The transport is reset only once the old processor has handed every
/// queued event to its worker and stopped.
pub proof fn lemma_reset_follows_drain<E>(m: NostrManager<E>)
    requires
        m.wf(),
        m.view().phase == SessionPhase::ResetPending,
    ensures
        m.view().processor.state == ProcessorState::Stopped,
        m.view().processor.queue.len() == 0,
{
}

} // verus!
