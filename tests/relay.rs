use whitenoise::relay::{
    all_roles, filter_connected, relay_urls_from_events, EventTag, RelayResolver, RelayRole, Tier,
    TransportError,
};

fn urls(v: &[&str]) -> Vec<String> {
    v.iter().map(|s| s.to_string()).collect()
}

/// Drives a resolver with canned tier outcomes and counts the asks per tier.
fn run_cascade(
    connected: &[&str],
    cached: Result<Vec<String>, TransportError>,
    query: Result<Vec<String>, TransportError>,
    fetch: Result<Vec<String>, TransportError>,
) -> (Vec<String>, [usize; 3]) {
    let mut r = RelayResolver::new(RelayRole::General, urls(connected));
    let mut asked = [0usize; 3];
    let (mut cached, mut query, mut fetch) = (Some(cached), Some(query), Some(fetch));
    while let Some(tier) = r.next_tier() {
        let outcome = match tier {
            Tier::Cached => {
                asked[0] += 1;
                cached.take().unwrap()
            }
            Tier::LocalQuery => {
                asked[1] += 1;
                query.take().unwrap()
            }
            Tier::NetworkFetch => {
                asked[2] += 1;
                fetch.take().unwrap()
            }
        };
        r.record(outcome);
    }
    (r.into_relays(), asked)
}

#[test]
fn filter_connected_drops_known_and_repeated_urls() {
    let r = filter_connected(&urls(&["a", "b", "a", "c", "b"]), &urls(&["c"]));
    assert_eq!(r, urls(&["a", "b"]));
}

#[test]
fn filter_connected_of_nothing_is_empty() {
    assert!(filter_connected(&vec![], &urls(&["a"])).is_empty());
}

#[test]
fn cascade_fetch_called_once_when_earlier_tiers_empty() {
    let (r, asked) = run_cascade(&[], Ok(vec![]), Ok(vec![]), Ok(urls(&["r3"])));
    assert_eq!(r, urls(&["r3"]));
    assert_eq!(asked, [1, 1, 1]);
}

#[test]
fn cascade_cached_short_circuits() {
    let (r, asked) = run_cascade(&["d"], Ok(urls(&["r1", "d"])), Ok(urls(&["x"])), Ok(urls(&["y"])));
    assert_eq!(r, urls(&["r1"]));
    assert_eq!(asked, [1, 0, 0]);
}

#[test]
fn cascade_query_short_circuits_fetch() {
    let (r, asked) = run_cascade(&[], Ok(vec![]), Ok(urls(&["r2"])), Ok(urls(&["y"])));
    assert_eq!(r, urls(&["r2"]));
    assert_eq!(asked, [1, 1, 0]);
}

#[test]
fn cascade_failures_are_not_fatal() {
    let (r, asked) = run_cascade(&[], Err(TransportError), Err(TransportError), Ok(urls(&["r4"])));
    assert_eq!(r, urls(&["r4"]));
    assert_eq!(asked, [1, 1, 1]);
}

#[test]
fn cascade_all_empty_yields_no_relays() {
    let (r, asked) = run_cascade(&[], Ok(vec![]), Ok(vec![]), Err(TransportError));
    assert!(r.is_empty());
    assert_eq!(asked, [1, 1, 1]);
}

#[test]
fn cascade_never_returns_connected_url() {
    let (r, _) = run_cascade(&["r1", "r2"], Ok(urls(&["r1", "r2"])), Ok(urls(&["r3"])), Ok(vec![]));
    assert!(r.is_empty());
}

#[test]
fn roles_in_resolution_order() {
    assert_eq!(all_roles(), vec![RelayRole::General, RelayRole::Inbox, RelayRole::KeyPackage]);
}

fn tag(is_relay: bool, content: Option<&str>) -> EventTag {
    EventTag { is_relay, content: content.map(|c| c.to_string()) }
}

#[test]
fn relay_urls_read_relay_tags_in_order() {
    let events = vec![
        vec![tag(true, Some("wss://a")), tag(false, Some("p")), tag(true, Some("wss://b"))],
        vec![tag(false, None), tag(true, Some("wss://c"))],
    ];
    assert_eq!(relay_urls_from_events(&events), urls(&["wss://a", "wss://b", "wss://c"]));
}

#[test]
fn relay_urls_stop_at_relay_tag_without_content() {
    let events = vec![
        vec![tag(true, Some("wss://a")), tag(true, None)],
        vec![tag(true, Some("wss://b"))],
    ];
    assert_eq!(relay_urls_from_events(&events), urls(&["wss://a"]));
}

#[test]
fn relay_urls_keep_first_occurrence_only() {
    let events = vec![
        vec![tag(true, Some("wss://a")), tag(true, Some("wss://b"))],
        vec![tag(true, Some("wss://a")), tag(true, Some("wss://c"))],
    ];
    assert_eq!(relay_urls_from_events(&events), urls(&["wss://a", "wss://b", "wss://c"]));
}
