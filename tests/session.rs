use whitenoise::relay::{all_roles, RelayRole, Tier, TransportError};
use whitenoise::runtime::{wn, Runtime};
use whitenoise::session::{
    CredentialError, NostrManager, NostrManagerError, NostrManagerSettings, SessionPhase,
};

fn settings() -> NostrManagerSettings {
    NostrManagerSettings {
        timeout_secs: 3,
        relays: vec!["wss://d1".to_string(), "wss://d2".to_string()],
        blossom_server: "https://b".to_string(),
    }
}

fn manager(resolve_user_relays: bool) -> NostrManager<u32> {
    NostrManager::new(settings(), resolve_user_relays, Ok(())).unwrap()
}

fn activate_to_relays(m: &mut NostrManager<u32>, who: &str, drained: &mut Vec<u32>) {
    m.begin_activation(who.to_string(), 10, drained).unwrap();
    m.transport_reset();
    m.credential_installed(Ok(())).unwrap();
    m.defaults_connected(Ok(())).unwrap();
}

/// Resolves every role from canned per-role tiers and connects the results.
fn resolve_all(m: &mut NostrManager<u32>, tiers: &dyn Fn(RelayRole, Tier) -> Vec<String>) {
    for role in all_roles() {
        let mut r = m.resolver_for(role);
        while let Some(t) = r.next_tier() {
            r.record(Ok(tiers(role, t)));
        }
        for url in r.into_relays() {
            m.relay_connected(role, url);
        }
    }
    m.user_relays_done();
}

fn activate(m: &mut NostrManager<u32>, who: &str) {
    let mut drained = Vec::new();
    activate_to_relays(m, who, &mut drained);
    if m.phase() == SessionPhase::UserRelaysPending {
        m.user_relays_done();
    }
    m.install_processor();
    m.tasks_spawned(true);
}

#[test]
fn new_connects_default_relays() {
    let m = manager(true);
    assert_eq!(m.phase(), SessionPhase::Unset);
    assert_eq!(m.connected_relays(), &vec!["wss://d1".to_string(), "wss://d2".to_string()]);
    assert_eq!(m.connected_roles(), &vec![None, None]);
}

#[test]
fn new_fails_when_default_relays_fail() {
    let r: Result<NostrManager<u32>, _> = NostrManager::new(settings(), true, Err(TransportError));
    assert_eq!(r.err(), Some(NostrManagerError::Client));
}

#[test]
fn switching_identity_resets_relays_and_processor() {
    let mut m = manager(true);
    let mut drained = Vec::new();
    activate_to_relays(&mut m, "A", &mut drained);
    resolve_all(&mut m, &|role, t| match (role, t) {
        (RelayRole::General, Tier::Cached) => vec!["wss://r1".to_string()],
        _ => vec![],
    });
    m.install_processor();
    m.tasks_spawned(true);
    assert!(m.connected_relays().contains(&"wss://r1".to_string()));
    assert_eq!(m.credential().as_deref(), Some("A"));
    m.enqueue_for(&"A".to_string(), 7).unwrap();

    activate_to_relays(&mut m, "B", &mut drained);
    assert_eq!(drained, vec![7]);
    assert_eq!(m.identity().as_deref(), Some("B"));
    assert_eq!(m.credential().as_deref(), Some("B"));
    assert_eq!(m.connected_relays(), &vec!["wss://d1".to_string(), "wss://d2".to_string()]);
    resolve_all(&mut m, &|role, t| match (role, t) {
        (RelayRole::General, Tier::LocalQuery) => vec!["wss://r2".to_string()],
        _ => vec![],
    });
    m.install_processor();
    assert_eq!(m.queued_events(), 0);
    m.tasks_spawned(true);
    assert_eq!(m.phase(), SessionPhase::Active);
    let connected = m.connected_relays();
    assert_eq!(
        connected,
        &vec!["wss://d1".to_string(), "wss://d2".to_string(), "wss://r2".to_string()]
    );
    assert_eq!(m.connected_roles(), &vec![None, None, Some(RelayRole::General)]);
    assert!(!m.is_degraded());
}

#[test]
fn superseded_identity_cannot_feed_new_processor() {
    let mut m = manager(false);
    activate(&mut m, "A");
    activate(&mut m, "B");
    assert_eq!(m.enqueue_for(&"A".to_string(), 1), Err(NostrManagerError::WrongIdentity));
    assert_eq!(m.queued_events(), 0);
    assert_eq!(m.enqueue_for(&"B".to_string(), 2), Ok(()));
    assert_eq!(m.next_event(), Some(2));
}

#[test]
fn drain_timeout_aborts_activation() {
    let mut m = manager(false);
    activate(&mut m, "A");
    for i in 0..3 {
        m.enqueue_for(&"A".to_string(), i).unwrap();
    }
    let mut drained = Vec::new();
    assert_eq!(
        m.begin_activation("B".to_string(), 2, &mut drained),
        Err(NostrManagerError::FailedToShutdownEventProcessor)
    );
    assert_eq!(m.phase(), SessionPhase::Invalid);
    assert_eq!(m.identity(), &None);
    assert_eq!(drained, vec![0, 1]);
    assert_eq!(m.enqueue_for(&"A".to_string(), 9), Err(NostrManagerError::WrongIdentity));
}

#[test]
fn missing_credential_aborts_activation() {
    let mut m = manager(true);
    let mut drained = Vec::new();
    m.begin_activation("A".to_string(), 1, &mut drained).unwrap();
    m.transport_reset();
    assert_eq!(m.credential_installed(Err(CredentialError)), Err(NostrManagerError::SecretsStoreError));
    assert_eq!(m.phase(), SessionPhase::Invalid);
    assert_eq!(m.identity(), &None);
}

#[test]
fn default_relay_failure_aborts_activation() {
    let mut m = manager(true);
    let mut drained = Vec::new();
    m.begin_activation("A".to_string(), 1, &mut drained).unwrap();
    m.transport_reset();
    m.credential_installed(Ok(())).unwrap();
    assert_eq!(m.defaults_connected(Err(TransportError)), Err(NostrManagerError::Client));
    assert_eq!(m.phase(), SessionPhase::Invalid);
}

#[test]
fn development_builds_skip_user_relays() {
    let mut m = manager(false);
    let mut drained = Vec::new();
    activate_to_relays(&mut m, "A", &mut drained);
    assert_eq!(m.phase(), SessionPhase::ProcessorPending);
    m.install_processor();
    m.tasks_spawned(false);
    assert_eq!(m.phase(), SessionPhase::Active);
    assert!(m.is_degraded());
    assert_eq!(m.connected_relays(), &vec!["wss://d1".to_string(), "wss://d2".to_string()]);
}

#[test]
fn events_refused_until_new_processor_installed() {
    let mut m = manager(false);
    let mut drained = Vec::new();
    activate_to_relays(&mut m, "A", &mut drained);
    assert_eq!(m.enqueue_for(&"A".to_string(), 1), Err(NostrManagerError::FailedToQueueEvent));
    m.install_processor();
    assert_eq!(m.enqueue_for(&"A".to_string(), 1), Ok(()));
    assert_eq!(m.next_event(), Some(1));
}

#[test]
fn connecting_a_relay_twice_keeps_one() {
    let mut m = manager(true);
    let mut drained = Vec::new();
    activate_to_relays(&mut m, "A", &mut drained);
    m.relay_connected(RelayRole::Inbox, "wss://d1".to_string());
    m.relay_connected(RelayRole::Inbox, "wss://x".to_string());
    m.relay_connected(RelayRole::KeyPackage, "wss://x".to_string());
    assert_eq!(m.connected_relays().len(), 3);
    assert_eq!(m.connected_roles(), &vec![None, None, Some(RelayRole::Inbox)]);
}

#[test]
fn default_settings_per_build() {
    let release = NostrManagerSettings::default_for(false);
    assert_eq!(release.timeout_secs, 3);
    assert_eq!(
        release.relays,
        vec!["wss://relay.damus.io", "wss://purplepag.es", "wss://relay.primal.net", "wss://nos.lol"]
    );
    assert_eq!(release.blossom_server, "https://blossom.primal.net");
    let dev = NostrManagerSettings::default_for(true);
    assert_eq!(dev.relays, vec!["ws://localhost:8080", "ws://localhost:7777", "wss://purplepag.es"]);
    assert_eq!(dev.blossom_server, "http://localhost:3000");
    let m: NostrManager<u8> = NostrManager::new(release, true, Ok(())).unwrap();
    assert_eq!(m.timeout_secs(), 3);
    assert_eq!(m.relays().len(), 4);
    assert_eq!(m.connected_relays().len(), 4);
    assert_eq!(m.phase(), SessionPhase::Unset);
}

#[test]
fn runtime_hands_out_initialised_state() {
    let mut rt: Runtime<u64> = Runtime::new();
    assert!(!rt.is_initialized());
    rt.init(17);
    assert!(rt.is_initialized());
    assert_eq!(**wn(&rt), 17);
}

#[test]
fn unset_session_refuses_events() {
    let mut m = manager(true);
    assert_eq!(m.enqueue_for(&"A".to_string(), 1), Err(NostrManagerError::WrongIdentity));
    assert_eq!(m.next_event(), None);
}
