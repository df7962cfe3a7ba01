use vstd::prelude::*;

verus! {

/// Purpose of a relay for an identity. Each role has its own relay set.
#[derive(Debug, Clone, Copy, PartialEq, Eq, Structural)]
pub enum RelayRole {
    General,
    Inbox,
    KeyPackage,
}

/// The roles in the order in which a session resolves them.
pub open spec fn role_order() -> Seq<RelayRole> {
    seq![RelayRole::General, RelayRole::Inbox, RelayRole::KeyPackage]
}

pub fn all_roles() -> (r: Vec<RelayRole>)
    ensures
        r@ == role_order(),
{
    vec![RelayRole::General, RelayRole::Inbox, RelayRole::KeyPackage]
}

/// The character sequences of a list of strings.
pub open spec fn urls_view(v: Seq<String>) -> Seq<Seq<char>> {
    v.map_values(|s: String| s@)
}

/// Relay URLs of `urls` in order, without those in `connected` and without
/// repeats (the first occurrence is kept).
pub open spec fn fresh_urls(urls: Seq<Seq<char>>, connected: Seq<Seq<char>>) -> Seq<Seq<char>>
    decreases urls.len(),
{
    if urls.len() == 0 {
        Seq::empty()
    } else {
        let rest = fresh_urls(urls.drop_last(), connected);
        let u = urls.last();
        if connected.contains(u) || rest.contains(u) {
            rest
        } else {
            rest.push(u)
        }
    }
}

fn contains_url(v: &Vec<String>, u: &String) -> (r: bool)
    ensures
        r == urls_view(v@).contains(u@),
{
    let mut i: usize = 0;
    while i < v.len()
        invariant
            i <= v.len(),
            forall|k: int| 0 <= k < i ==> v@[k]@ != u@,
        decreases v.len() - i,
    {
        if v[i] == *u {
            assert(urls_view(v@)[i as int] == u@);
            return true;
        }
        i = i + 1;
    }
    proof {
        if urls_view(v@).contains(u@) {
            let k = choose|k: int| 0 <= k < urls_view(v@).len() && urls_view(v@)[k] == u@;
            assert(v@[k]@ == u@);
        }
    }
    false
}

/// Keeps the URLs of `urls` that are not in `already_connected`, in order and
/// without repeats.
pub fn filter_connected(urls: &Vec<String>, already_connected: &Vec<String>) -> (r: Vec<String>)
    ensures
        urls_view(r@) == fresh_urls(urls_view(urls@), urls_view(already_connected@)),
{
    let ghost conn = urls_view(already_connected@);
    let mut r: Vec<String> = Vec::new();
    let mut i: usize = 0;
    while i < urls.len()
        invariant
            i <= urls.len(),
            conn == urls_view(already_connected@),
            urls_view(r@) == fresh_urls(urls_view(urls@).take(i as int), conn),
        decreases urls.len() - i,
    {
        let ghost pre = urls_view(urls@).take(i as int);
        let ghost next = urls_view(urls@).take(i as int + 1);
        assert(next.drop_last() == pre);
        assert(next.last() == urls@[i as int]@);
        let u = &urls[i];
        if !contains_url(already_connected, u) && !contains_url(&r, u) {
            r.push(u.clone());
            assert(urls_view(r@) == urls_view(r@).drop_last().push(u@));
        }
        i = i + 1;
    }
    assert(urls_view(urls@).take(urls.len() as int) == urls_view(urls@));
    r
}

/// Relays the session already holds, or URLs found twice, are never returned.
pub proof fn lemma_fresh_urls_are_new(urls: Seq<Seq<char>>, connected: Seq<Seq<char>>)
    ensures
        forall|i: int|
            0 <= i < fresh_urls(urls, connected).len() ==> !connected.contains(
                #[trigger] fresh_urls(urls, connected)[i],
            ) && urls.contains(fresh_urls(urls, connected)[i]),
        fresh_urls(urls, connected).no_duplicates(),
    decreases urls.len(),
{
    if urls.len() > 0 {
        let rest = fresh_urls(urls.drop_last(), connected);
        lemma_fresh_urls_are_new(urls.drop_last(), connected);
        assert forall|i: int| 0 <= i < rest.len() implies urls.contains(rest[i]) by {
            let k = choose|k: int| 0 <= k < urls.drop_last().len() && urls.drop_last()[k] == rest[i];
            assert(urls[k] == rest[i]);
        }
        assert(urls[urls.len() - 1] == urls.last());
    }
}

/// A source of relay lists, in the order in which the cascade asks them.
#[derive(Debug, Clone, Copy, PartialEq, Eq, Structural)]
pub enum Tier {
    /// The relay set persisted with the identity's record.
    Cached,
    /// Relay-list events already held in the local event database.
    LocalQuery,
    /// Relay-list events fetched from the default relays.
    NetworkFetch,
}

pub open spec fn tier_at(i: int) -> Tier {
    if i == 0 {
        Tier::Cached
    } else if i == 1 {
        Tier::LocalQuery
    } else {
        Tier::NetworkFetch
    }
}

/// A failed connect, query or fetch against the transport.
#[derive(Debug, Clone, Copy, PartialEq, Eq, Structural)]
pub struct TransportError;

/// The URLs a tier reported: a failed tier counts as an empty one.
pub open spec fn outcome_urls(outcome: Result<Vec<String>, TransportError>) -> Seq<Seq<char>> {
    match outcome {
        Ok(v) => urls_view(v@),
        Err(_) => Seq::empty(),
    }
}

/// The cascade ends at the first non-empty tier, or after the last tier.
pub open spec fn cascade_done(outcomes: Seq<Seq<Seq<char>>>) -> bool {
    outcomes.len() >= 3 || (outcomes.len() > 0 && outcomes.last().len() > 0)
}

/// What the cascade resolves to once it is done.
pub open spec fn cascade_result(
    outcomes: Seq<Seq<Seq<char>>>,
    connected: Seq<Seq<char>>,
) -> Seq<Seq<char>> {
    if outcomes.len() == 0 {
        Seq::empty()
    } else {
        fresh_urls(outcomes.last(), connected)
    }
}

/// Resolves the relay set of one (identity, role) pair through the cached,
/// locally queried and network-fetched tiers, in that order.
///
/// The caller asks `next_tier`, queries that tier, and hands the outcome to
/// `record`, until `next_tier` returns `None`.
pub struct RelayResolver {
    role: RelayRole,
    already_connected: Vec<String>,
    outcomes: Vec<Vec<String>>,
}

impl RelayResolver {
    pub closed spec fn relay_role(&self) -> RelayRole {
        self.role
    }

    pub fn role(&self) -> (r: RelayRole)
        ensures
            r == self.relay_role(),
    {
        self.role
    }

    /// URLs the session is connected to already.
    pub closed spec fn connected(&self) -> Seq<Seq<char>> {
        urls_view(self.already_connected@)
    }

    /// What each tier asked so far reported, in order.
    pub closed spec fn outcomes(&self) -> Seq<Seq<Seq<char>>> {
        self.outcomes@.map_values(|v: Vec<String>| urls_view(v@))
    }

    pub open spec fn wf(&self) -> bool {
        &&& self.outcomes().len() <= 3
        &&& forall|i: int| 0 <= i < self.outcomes().len() - 1 ==> #[trigger] self.outcomes()[i].len() == 0
    }

    pub open spec fn is_done(&self) -> bool {
        cascade_done(self.outcomes())
    }

    pub fn new(role: RelayRole, already_connected: Vec<String>) -> (r: RelayResolver)
        ensures
            r.wf(),
            r.relay_role() == role,
            r.connected() == urls_view(already_connected@),
            r.outcomes() == Seq::<Seq<Seq<char>>>::empty(),
    {
        let r = RelayResolver { role, already_connected, outcomes: Vec::new() };
        assert(r.outcomes() =~= Seq::<Seq<Seq<char>>>::empty());
        r
    }

    /// The tier to ask next, or `None` once the cascade is done.
    pub fn next_tier(&self) -> (t: Option<Tier>)
        requires
            self.wf(),
        ensures
            t == (if self.is_done() {
                None
            } else {
                Some(tier_at(self.outcomes().len() as int))
            }),
    {
        let n = self.outcomes.len();
        if n >= 3 || (n > 0 && self.outcomes[n - 1].len() > 0) {
            None
        } else if n == 0 {
            Some(Tier::Cached)
        } else if n == 1 {
            Some(Tier::LocalQuery)
        } else {
            Some(Tier::NetworkFetch)
        }
    }

    /// Records what the tier named by `next_tier` reported.
    pub fn record(&mut self, outcome: Result<Vec<String>, TransportError>)
        requires
            old(self).wf(),
            !old(self).is_done(),
        ensures
            final(self).wf(),
            final(self).relay_role() == old(self).relay_role(),
            final(self).connected() == old(self).connected(),
            final(self).outcomes() == old(self).outcomes().push(outcome_urls(outcome)),
    {
        let ghost before = self.outcomes();
        let urls = match outcome {
            Ok(v) => v,
            Err(_) => Vec::new(),
        };
        assert(urls_view(urls@) == outcome_urls(outcome));
        self.outcomes.push(urls);
        assert(self.outcomes() =~= before.push(outcome_urls(outcome)));
    }

    /// The resolved relays, without those already connected.
    pub fn into_relays(self) -> (r: Vec<String>)
        requires
            self.wf(),
            self.is_done(),
        ensures
            urls_view(r@) == cascade_result(self.outcomes(), self.connected()),
    {
        let n = self.outcomes.len();
        let r = filter_connected(&self.outcomes[n - 1], &self.already_connected);
        r
    }
}

/// The tiers are asked in the fixed order, and a non-empty tier ends the
/// cascade: no later tier is asked after it.
pub proof fn lemma_cascade_short_circuits(r: RelayResolver, k: int)
    requires
        r.wf(),
        0 <= k < r.outcomes().len(),
        r.outcomes()[k].len() > 0,
    ensures
        k == r.outcomes().len() - 1,
        r.is_done(),
{
}

/// What the relay-list logic reads of one event tag.
#[derive(Debug)]
pub struct EventTag {
    /// Whether the tag is a relay tag.
    pub is_relay: bool,
    /// The tag's content, if it has one.
    pub content: Option<String>,
}

/// Reading state over tags: the URLs found so far, and whether reading stopped.
pub type ScanState = (Seq<Seq<char>>, bool);

/// One tag read: non-relay tags are skipped, a relay tag with content adds its
/// URL, and a relay tag without content stops the reading.
pub open spec fn scan_tag(st: ScanState, tag: EventTag) -> ScanState {
    if st.1 || !tag.is_relay {
        st
    } else {
        match tag.content {
            Some(c) => (st.0.push(c@), false),
            None => (st.0, true),
        }
    }
}

pub open spec fn scan_tags(st: ScanState, tags: Seq<EventTag>, n: int) -> ScanState
    decreases n,
{
    if n <= 0 {
        st
    } else {
        scan_tag(scan_tags(st, tags, n - 1), tags[n - 1])
    }
}

pub open spec fn scan_events(events: Seq<Vec<EventTag>>, n: int) -> ScanState
    decreases n,
{
    if n <= 0 {
        (Seq::empty(), false)
    } else {
        let tags = events[n - 1]@;
        scan_tags(scan_events(events, n - 1), tags, tags.len() as int)
    }
}

/// The relay URLs named by the relay tags of `events`, in order, up to the
/// first relay tag without content; a URL named twice is kept once, at its
/// first position.
pub fn relay_urls_from_events(events: &Vec<Vec<EventTag>>) -> (r: Vec<String>)
    ensures
        urls_view(r@) == fresh_urls(scan_events(events@, events@.len() as int).0, Seq::empty()),
        urls_view(r@).no_duplicates(),
{
    let named = relay_tag_contents(events);
    let none: Vec<String> = Vec::new();
    assert(urls_view(none@) =~= Seq::<Seq<char>>::empty());
    let r = filter_connected(&named, &none);
    proof {
        lemma_fresh_urls_are_new(urls_view(named@), Seq::empty());
    }
    r
}

/// The contents of the relay tags of `events`, repeats included.
fn relay_tag_contents(events: &Vec<Vec<EventTag>>) -> (r: Vec<String>)
    ensures
        urls_view(r@) == scan_events(events@, events@.len() as int).0,
{
    let mut urls: Vec<String> = Vec::new();
    let mut stopped = false;
    let mut i: usize = 0;
    while i < events.len()
        invariant
            i <= events.len(),
            (urls_view(urls@), stopped) == scan_events(events@, i as int),
        decreases events.len() - i,
    {
        let tags = &events[i];
        let mut j: usize = 0;
        while j < tags.len()
            invariant
                i < events.len(),
                tags == events@[i as int],
                j <= tags.len(),
                (urls_view(urls@), stopped) == scan_tags(scan_events(events@, i as int), tags@, j as int),
            decreases tags.len() - j,
        {
            let tag = &tags[j];
            if !stopped && tag.is_relay {
                match &tag.content {
                    Some(c) => {
                        urls.push(c.clone());
                        assert(urls_view(urls@) == urls_view(urls@).drop_last().push(c@));
                    },
                    None => {
                        stopped = true;
                    },
                }
            }
            j = j + 1;
        }
        i = i + 1;
    }
    urls
}

} // verus!
