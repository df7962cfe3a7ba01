use vstd::prelude::*;
use crate::relay::TransportError;

verus! {

/// An account's identity as the session logic reads it.
#[derive(Debug)]
pub struct Identity {
    /// Public-key identifier, in hex.
    pub pubkey: String,
    /// Whether this is the active identity.
    pub active: bool,
    /// Watermark for backfill, in seconds since the epoch.
    pub last_synced: u64,
}

/// Whether an event created at `t` lies in the window fetched from `since`.
pub open spec fn in_window(since: u64, t: u64) -> bool {
    t >= since
}

/// The watermark after a backfill run that started at `fetch_start`: when
/// every fetched event was queued it moves to the fetch start (or stays,
/// where it is later already); otherwise it is unchanged.
pub open spec fn next_watermark(last_synced: u64, fetch_start: u64, fetched: bool) -> u64 {
    if fetched && fetch_start > last_synced {
        fetch_start
    } else {
        last_synced
    }
}

/// The historical fetch of one identity, from its watermark on.
///
/// The caller fetches the events since `since()`, enqueues each one, then
/// hands the outcome and a freshly read identity record to `finish`, and
/// saves the record that comes back, if any.
pub struct BackfillTask {
    pubkey: String,
    since: u64,
    fetch_start: u64,
}

impl BackfillTask {
    pub closed spec fn pubkey_view(&self) -> Seq<char> {
        self.pubkey@
    }

    pub closed spec fn since_spec(&self) -> u64 {
        self.since
    }

    pub closed spec fn fetch_start_spec(&self) -> u64 {
        self.fetch_start
    }

    /// A backfill for `identity`, started at `fetch_start`.
    pub fn new(identity: &Identity, fetch_start: u64) -> (t: BackfillTask)
        ensures
            t.pubkey_view() == identity.pubkey@,
            t.since_spec() == identity.last_synced,
            t.fetch_start_spec() == fetch_start,
    {
        BackfillTask { pubkey: identity.pubkey.clone(), since: identity.last_synced, fetch_start }
    }

    pub fn pubkey(&self) -> (r: &String)
        ensures
            r@ == self.pubkey_view(),
    {
        &self.pubkey
    }

    /// Lower bound of the fetch window.
    pub fn since(&self) -> (r: u64)
        ensures
            r == self.since_spec(),
    {
        self.since
    }

    /// The record to save once the fetch is over. When the fetch succeeded and
    /// every fetched event was queued (`all_queued`), `record` with its
    /// watermark advanced to the fetch start; otherwise nothing, so that the
    /// next activation fetches the same window again.
    pub fn finish(&self, fetched: Result<(), TransportError>, all_queued: bool, record: Identity) -> (r:
        Option<Identity>)
        ensures
            (fetched is Err || !all_queued) ==> r is None,
            (fetched is Ok && all_queued) ==> r is Some && r->Some_0.pubkey == record.pubkey
                && r->Some_0.active == record.active && r->Some_0.last_synced == next_watermark(
                record.last_synced,
                self.fetch_start_spec(),
                true,
            ),
    {
        match fetched {
            Ok(()) => {
                if !all_queued {
                    None
                } else if self.fetch_start > record.last_synced {
                    Some(Identity { last_synced: self.fetch_start, ..record })
                } else {
                    Some(record)
                }
            },
            Err(_) => None,
        }
    }
}

/// A failed backfill leaves the watermark where it was; a successful one
/// moves it to at least the fetch start, and never back. Either way no event
/// is skipped:
/// every event in the old window was fetched by this run or lies in the new
/// window.
pub proof fn lemma_watermark_leaves_no_gap(last_synced: u64, fetch_start: u64, fetched: bool)
    ensures
        !fetched ==> next_watermark(last_synced, fetch_start, fetched) == last_synced,
        fetched ==> next_watermark(last_synced, fetch_start, fetched) >= fetch_start,
        next_watermark(last_synced, fetch_start, fetched) >= last_synced,
        forall|t: u64|
            in_window(last_synced, t) ==> in_window(
                next_watermark(last_synced, fetch_start, fetched),
                t,
            ) || (fetched && t < fetch_start),
{
}

} // verus!
