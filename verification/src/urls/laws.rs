//! What holds of the cache and of the lookups over any run of calls.

use crate::urls::cache::{
    initial_state, save_due, state_after_set, state_after_tick, CacheState, SAVE_INTERVAL,
};
use crate::urls::mimes::{known, lookup, resolved, unknown, MimesState, ProbeState};
use crate::urls::probe::{result_of_header, HttpError};
use crate::urls::snapshot::snapshot_decoded;
use vstd::prelude::*;

verus! {

/// A URL that is neither cached nor in flight is unknown at its first
/// lookup, which asks for one probe and marks it as pending. A lookup of the
/// same URL before the probe reports is unknown too, asks for no probe and
/// changes nothing, however often it is repeated.
pub proof fn lemma_first_lookup_starts_one_probe(state: MimesState, url: Seq<char>)
    requires
        !state.cache.entries.contains_key(url),
        !state.in_flight.contains_key(url),
    ensures
        lookup(state, url).1 == unknown(true),
        lookup(state, url).0.cache == state.cache,
        lookup(state, url).0.in_flight == state.in_flight.insert(url, ProbeState::Pending),
        lookup(lookup(state, url).0, url) == (lookup(state, url).0, unknown(false)),
{
}

/// A lookup of a cached URL answers with the cached MIME type at once and
/// changes nothing, whatever is in flight.
pub proof fn lemma_cached_is_known(state: MimesState, url: Seq<char>)
    requires
        state.cache.entries.contains_key(url),
    ensures
        lookup(state, url) == (state, known(state.cache.entries[url])),
{
}

/// A tick keeps every entry of the live map, whatever the load read and
/// whatever the time.
pub proof fn lemma_tick_keeps_entries(
    state: CacheState,
    load: Option<Option<Map<Seq<char>, Seq<char>>>>,
    now: int,
    url: Seq<char>,
)
    requires
        state.entries.contains_key(url),
    ensures
        state_after_tick(state, load, now).entries.contains_key(url),
        state_after_tick(state, load, now).entries[url] == state.entries[url],
{
}

/// Once a MIME type is set for a URL, a lookup of the URL answers with it,
/// also after a tick that merges an entry for the same URL from disk.
pub proof fn lemma_set_outlives_load(
    state: MimesState,
    url: Seq<char>,
    mime_type: Seq<char>,
    load: Option<Option<Map<Seq<char>, Seq<char>>>>,
    now: int,
)
    ensures
        ({
            let set = MimesState {
                cache: state_after_set(state.cache, url, mime_type),
                ..state
            };
            let ticked = MimesState { cache: state_after_tick(set.cache, load, now), ..set };
            &&& lookup(set, url) == (set, known(mime_type))
            &&& lookup(ticked, url) == (ticked, known(mime_type))
        }),
{
}

/// A saved map is restored by a restart: where `bytes` decode to `entries`,
/// a new cache whose load read `bytes` holds exactly `entries` after the
/// tick that takes the load.
pub proof fn lemma_restart_restores(
    entries: Map<Seq<char>, Seq<char>>,
    bytes: Seq<u8>,
    path: Seq<char>,
    started: int,
    now: int,
)
    ensures
        snapshot_decoded(bytes) == Some(entries) ==> state_after_tick(
            initial_state(path, started),
            Some(snapshot_decoded(bytes)),
            now,
        ).entries == entries,
{
    assert(entries.union_prefer_right(Map::<Seq<char>, Seq<char>>::empty()) =~= entries);
}

/// The result of the load is taken once: after the tick that takes it, and
/// after any later tick, the load is no longer awaited, and what a later
/// poll shows does not reach the live map.
pub proof fn lemma_load_is_taken_once(
    state: CacheState,
    load: Option<Option<Map<Seq<char>, Seq<char>>>>,
    now: int,
)
    ensures
        load is Some ==> !state_after_tick(state, load, now).load_pending,
        !state.load_pending ==> !state_after_tick(state, load, now).load_pending,
        !state.load_pending ==> state_after_tick(state, load, now).entries == state.entries,
{
}

/// A load that fails leaves a new cache empty.
pub proof fn lemma_failed_load_starts_cold(path: Seq<char>, started: int, now: int)
    ensures
        state_after_tick(initial_state(path, started), Some(None), now).entries == Map::<
            Seq<char>,
            Seq<char>,
        >::empty(),
{
}

/// Saves are a full interval apart: after a tick at `now` that started a
/// save, no save is due before `now + SAVE_INTERVAL`.
pub proof fn lemma_saves_are_spaced(
    state: CacheState,
    load: Option<Option<Map<Seq<char>, Seq<char>>>>,
    now: int,
    later: int,
)
    requires
        save_due(state.last_saved, now),
        later < now + SAVE_INTERVAL,
    ensures
        state_after_tick(state, load, now).last_saved == now,
        !save_due(state_after_tick(state, load, now).last_saved, later),
{
}

/// A response without a `content-type` header is final. Once the pending
/// probe of an uncached URL has reported it, every lookup of the URL is
/// unknown, asks for no probe and changes nothing.
pub proof fn lemma_missing_header_is_permanent(state: MimesState, url: Seq<char>)
    requires
        !state.cache.entries.contains_key(url),
        state.in_flight.contains_key(url),
        state.in_flight[url] is Pending,
    ensures
        result_of_header(None) == Err::<Seq<char>, HttpError>(HttpError::MissingHeader),
        ({
            let failed = resolved(state, url, result_of_header(None));
            lookup(failed, url) == (failed, unknown(false))
        }),
{
}

/// A failure on the way allows another try. Once the pending probe of an
/// uncached URL has reported it, the next lookup of the URL is unknown and
/// retires the probe, and the lookup after that asks for a new probe.
pub proof fn lemma_transport_failure_allows_retry(state: MimesState, url: Seq<char>)
    requires
        !state.cache.entries.contains_key(url),
        state.in_flight.contains_key(url),
        state.in_flight[url] is Pending,
    ensures
        ({
            let failed = resolved(state, url, Err(HttpError::HttpFailure));
            let (retired, first) = lookup(failed, url);
            let (retried, second) = lookup(retired, url);
            &&& first == unknown(false)
            &&& !retired.in_flight.contains_key(url)
            &&& retired.cache == state.cache
            &&& second == unknown(true)
            &&& retried.in_flight.contains_key(url)
            &&& retried.in_flight[url] is Pending
        }),
{
}

/// A MIME type that the pending probe of an uncached URL reports is
/// answered by the next lookup of the URL, which caches it and retires the
/// probe; from then on the URL is known.
pub proof fn lemma_reported_type_is_cached(
    state: MimesState,
    url: Seq<char>,
    mime_type: Seq<char>,
)
    requires
        !state.cache.entries.contains_key(url),
        state.in_flight.contains_key(url),
        state.in_flight[url] is Pending,
    ensures
        ({
            let reported = resolved(state, url, Ok(mime_type));
            let (cached, first) = lookup(reported, url);
            &&& first == known(mime_type)
            &&& cached.cache == state_after_set(state.cache, url, mime_type)
            &&& !cached.in_flight.contains_key(url)
            &&& lookup(cached, url) == (cached, known(mime_type))
        }),
{
}

/// No URL is both cached and in flight.
pub open spec fn cached_apart_from_in_flight(state: MimesState) -> bool {
    forall|url: Seq<char>|
        !(#[trigger] state.cache.entries.contains_key(url) && state.in_flight.contains_key(url))
}

/// Lookups and reports keep cached URLs apart from those in flight.
pub proof fn lemma_lookup_keeps_cached_apart(
    state: MimesState,
    url: Seq<char>,
    result: Result<Seq<char>, HttpError>,
)
    requires
        cached_apart_from_in_flight(state),
    ensures
        cached_apart_from_in_flight(lookup(state, url).0),
        cached_apart_from_in_flight(resolved(state, url, result)),
{
    let after = lookup(state, url).0;
    assert forall|other: Seq<char>|
        !(#[trigger] after.cache.entries.contains_key(other) && after.in_flight.contains_key(
            other,
        )) by {
        assert(!(state.cache.entries.contains_key(other) && state.in_flight.contains_key(other)));
    }
    let reported = resolved(state, url, result);
    assert forall|other: Seq<char>|
        !(#[trigger] reported.cache.entries.contains_key(other)
            && reported.in_flight.contains_key(other)) by {
        assert(!(state.cache.entries.contains_key(other) && state.in_flight.contains_key(other)));
    }
}

/// Two sets for different URLs, made in either order, leave the same state,
/// and both are seen in it.
pub proof fn lemma_sets_of_different_urls_commute(
    state: CacheState,
    url_a: Seq<char>,
    mime_a: Seq<char>,
    url_b: Seq<char>,
    mime_b: Seq<char>,
)
    requires
        url_a != url_b,
    ensures
        ({
            let a_then_b = state_after_set(state_after_set(state, url_a, mime_a), url_b, mime_b);
            let b_then_a = state_after_set(state_after_set(state, url_b, mime_b), url_a, mime_a);
            &&& a_then_b == b_then_a
            &&& a_then_b.entries.contains_key(url_a) && a_then_b.entries[url_a] == mime_a
            &&& a_then_b.entries.contains_key(url_b) && a_then_b.entries[url_b] == mime_b
        }),
{
    let a_then_b = state_after_set(state_after_set(state, url_a, mime_a), url_b, mime_b);
    let b_then_a = state_after_set(state_after_set(state, url_b, mime_b), url_a, mime_a);
    assert(a_then_b.entries =~= b_then_a.entries);
}

/// What can happen to the lookups, one thing after another.
pub enum Event {
    /// A lookup of the URL.
    Lookup(Seq<char>),
    /// The report of a probe of the URL.
    Report(Seq<char>, Result<Seq<char>, HttpError>),
    /// A MIME type is set for the URL.
    SetType(Seq<char>, Seq<char>),
    /// A tick of the cache, with what a poll of the load gave and the time.
    Tick(Option<Option<Map<Seq<char>, Seq<char>>>>, int),
}

/// The event is a lookup of `url`.
pub open spec fn is_lookup_of(event: Event, url: Seq<char>) -> bool {
    match event {
        Event::Lookup(looked_up) => looked_up == url,
        _ => false,
    }
}

/// The event is the report of a probe of `url`.
pub open spec fn is_report_of(event: Event, url: Seq<char>) -> bool {
    match event {
        Event::Report(probed, _) => probed == url,
        _ => false,
    }
}

/// The event sets a MIME type for `url`.
pub open spec fn is_set_of(event: Event, url: Seq<char>) -> bool {
    match event {
        Event::SetType(set, _) => set == url,
        _ => false,
    }
}

/// The state after an event.
pub open spec fn after_event(state: MimesState, event: Event) -> MimesState {
    match event {
        Event::Lookup(url) => lookup(state, url).0,
        Event::Report(url, result) => resolved(state, url, result),
        Event::SetType(url, mime_type) => MimesState {
            cache: state_after_set(state.cache, url, mime_type),
            ..state
        },
        Event::Tick(load, now) => MimesState {
            cache: state_after_tick(state.cache, load, now),
            ..state
        },
    }
}

/// The state after a run of events.
pub open spec fn after_events(state: MimesState, events: Seq<Event>) -> MimesState
    decreases events.len(),
{
    if events.len() == 0 {
        state
    } else {
        after_events(after_event(state, events[0]), events.drop_first())
    }
}

/// How many probes of `url` the lookups of a run of events ask for.
pub open spec fn probes_asked(state: MimesState, events: Seq<Event>, url: Seq<char>) -> nat
    decreases events.len(),
{
    if events.len() == 0 {
        0
    } else {
        let asked: nat = if is_lookup_of(events[0], url) && lookup(state, url).1.start_probe {
            1
        } else {
            0
        };
        asked + probes_asked(after_event(state, events[0]), events.drop_first(), url)
    }
}

/// While the probe of a URL is pending and does not report, it stays
/// pending and no lookup asks for another, whatever else happens.
pub proof fn lemma_pending_probe_is_the_only_one(
    state: MimesState,
    events: Seq<Event>,
    url: Seq<char>,
)
    requires
        state.in_flight.contains_key(url),
        state.in_flight[url] is Pending,
        forall|i: int| 0 <= i < events.len() ==> !is_report_of(#[trigger] events[i], url),
    ensures
        probes_asked(state, events, url) == 0,
        after_events(state, events).in_flight.contains_key(url),
        after_events(state, events).in_flight[url] is Pending,
    decreases events.len(),
{
    if events.len() > 0 {
        let rest = events.drop_first();
        assert(!is_report_of(events[0], url));
        assert forall|i: int| 0 <= i < rest.len() implies !is_report_of(#[trigger] rest[i], url) by {
            assert(rest[i] == events[i + 1]);
        }
        lemma_pending_probe_is_the_only_one(after_event(state, events[0]), rest, url);
    }
}

/// Between two reports of a URL at most one probe of it is asked for,
/// however many lookups there are and whatever else happens.
pub proof fn lemma_one_probe_at_a_time(state: MimesState, events: Seq<Event>, url: Seq<char>)
    requires
        forall|i: int| 0 <= i < events.len() ==> !is_report_of(#[trigger] events[i], url),
    ensures
        probes_asked(state, events, url) <= 1,
    decreases events.len(),
{
    if events.len() > 0 {
        let rest = events.drop_first();
        let next = after_event(state, events[0]);
        assert(!is_report_of(events[0], url));
        assert forall|i: int| 0 <= i < rest.len() implies !is_report_of(#[trigger] rest[i], url) by {
            assert(rest[i] == events[i + 1]);
        }
        if is_lookup_of(events[0], url) && lookup(state, url).1.start_probe {
            lemma_pending_probe_is_the_only_one(next, rest, url);
        } else {
            lemma_one_probe_at_a_time(next, rest, url);
        }
    }
}

/// A URL whose response had no `content-type` header is never probed
/// again: its probe stays in flight as it is and no lookup asks for another,
/// whatever happens.
pub proof fn lemma_missing_header_is_final(state: MimesState, events: Seq<Event>, url: Seq<char>)
    requires
        state.in_flight.contains_key(url),
        state.in_flight[url] == ProbeState::Done(Err(HttpError::MissingHeader)),
    ensures
        probes_asked(state, events, url) == 0,
        after_events(state, events).in_flight.contains_key(url),
        after_events(state, events).in_flight[url] == ProbeState::Done(
            Err(HttpError::MissingHeader),
        ),
    decreases events.len(),
{
    if events.len() > 0 {
        lemma_missing_header_is_final(after_event(state, events[0]), events.drop_first(), url);
    }
}

/// A cached MIME type stays as it is until another is set for its URL:
/// lookups, reports, ticks and sets for other URLs do not touch it.
pub proof fn lemma_cached_type_stays(state: MimesState, events: Seq<Event>, url: Seq<char>)
    requires
        state.cache.entries.contains_key(url),
        forall|i: int| 0 <= i < events.len() ==> !is_set_of(#[trigger] events[i], url),
    ensures
        after_events(state, events).cache.entries.contains_key(url),
        after_events(state, events).cache.entries[url] == state.cache.entries[url],
        lookup(after_events(state, events), url).1 == known(state.cache.entries[url]),
        probes_asked(state, events, url) == 0,
    decreases events.len(),
{
    if events.len() > 0 {
        let rest = events.drop_first();
        assert(!is_set_of(events[0], url));
        assert forall|i: int| 0 <= i < rest.len() implies !is_set_of(#[trigger] rest[i], url) by {
            assert(rest[i] == events[i + 1]);
        }
        lemma_cached_type_stays(after_event(state, events[0]), rest, url);
    }
}

} // verus!
