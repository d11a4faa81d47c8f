//! Lookups that fill the cache: at most one probe per URL is in flight, a
//! probe that failed on the way may be repeated, and a URL whose response
//! names no content type is not probed again.

use crate::urls::cache::{state_after_set, CacheState, UrlCache};
use crate::urls::probe::{mime_result_view, HttpError, MimeResult};
use vstd::hash_map::StringHashMap;
use vstd::prelude::*;

verus! {

/// A probe that was started, as the lookups see it.
pub enum Probe {
    /// No result has arrived.
    Pending,
    /// The probe has reported this result.
    Done(MimeResult),
}

/// A probe with its MIME type seen as a character sequence.
pub enum ProbeState {
    /// No result has arrived.
    Pending,
    /// The probe has reported this result.
    Done(Result<Seq<char>, HttpError>),
}

/// The state of the lookups: the cache and the probes in flight.
pub struct MimesState {
    /// The cache.
    pub cache: CacheState,
    /// The probes that were started and not retired, by URL.
    pub in_flight: Map<Seq<char>, ProbeState>,
}

/// What a lookup answers.
pub struct Lookup {
    /// The MIME type, where it is known.
    pub mime_type: Option<String>,
    /// Whether the caller is to start a probe of the URL now.
    pub start_probe: bool,
}

/// What a lookup answers, with the MIME type seen as a character sequence.
pub struct LookupView {
    /// The MIME type, where it is known.
    pub mime_type: Option<Seq<char>>,
    /// Whether the caller is to start a probe of the URL now.
    pub start_probe: bool,
}

impl View for Probe {
    type V = ProbeState;

    open spec fn view(&self) -> ProbeState {
        match self {
            Probe::Pending => ProbeState::Pending,
            Probe::Done(result) => ProbeState::Done(mime_result_view(*result)),
        }
    }
}

impl View for Lookup {
    type V = LookupView;

    open spec fn view(&self) -> LookupView {
        LookupView {
            mime_type: match self.mime_type {
                Some(value) => Some(value@),
                None => None,
            },
            start_probe: self.start_probe,
        }
    }
}

/// The answer "not known", with or without the request to start a probe.
pub open spec fn unknown(start_probe: bool) -> LookupView {
    LookupView { mime_type: None, start_probe }
}

/// The answer "known".
pub open spec fn known(mime_type: Seq<char>) -> LookupView {
    LookupView { mime_type: Some(mime_type), start_probe: false }
}

/// A lookup of `url`: the state after it and the answer.
///
/// A cached URL is answered from the cache. Otherwise the probe in flight
/// decides: none starts one; a pending one is waited for; a MIME type is
/// cached and the probe retired; a failure on the way retires the probe, so
/// that the next lookup starts another; a response without the header stays
/// in flight for good, so that none is started again.
pub open spec fn lookup(state: MimesState, url: Seq<char>) -> (MimesState, LookupView) {
    if state.cache.entries.contains_key(url) {
        (state, known(state.cache.entries[url]))
    } else if !state.in_flight.contains_key(url) {
        (
            MimesState { in_flight: state.in_flight.insert(url, ProbeState::Pending), ..state },
            unknown(true),
        )
    } else {
        match state.in_flight[url] {
            ProbeState::Pending => (state, unknown(false)),
            ProbeState::Done(Ok(mime_type)) => (
                MimesState {
                    cache: state_after_set(state.cache, url, mime_type),
                    in_flight: state.in_flight.remove(url),
                },
                known(mime_type),
            ),
            ProbeState::Done(Err(HttpError::HttpFailure)) => (
                MimesState { in_flight: state.in_flight.remove(url), ..state },
                unknown(false),
            ),
            ProbeState::Done(Err(HttpError::MissingHeader)) => (state, unknown(false)),
        }
    }
}

/// The arrival of the result of the probe of `url`. It is recorded where a
/// probe of `url` is pending, and dropped otherwise: each probe reports once.
pub open spec fn resolved(
    state: MimesState,
    url: Seq<char>,
    result: Result<Seq<char>, HttpError>,
) -> MimesState {
    if state.in_flight.contains_key(url) && state.in_flight[url] is Pending {
        MimesState { in_flight: state.in_flight.insert(url, ProbeState::Done(result)), ..state }
    } else {
        state
    }
}

/// The probes of a table, each seen as a `ProbeState`.
spec fn probes_of(table: Map<Seq<char>, Probe>) -> Map<Seq<char>, ProbeState> {
    Map::new(|url: Seq<char>| table.contains_key(url), |url: Seq<char>| table[url]@)
}

/// Looks MIME types up in the cache and has each unknown URL probed once.
pub struct UrlMimes {
    /// The cache that the lookups read and fill.
    pub cache: UrlCache,
    in_flight: StringHashMap<Probe>,
}

impl View for UrlMimes {
    type V = MimesState;

    closed spec fn view(&self) -> MimesState {
        MimesState { cache: self.cache@, in_flight: probes_of(self.in_flight@) }
    }
}

impl UrlMimes {
    /// Lookups over `url_cache`, with no probe in flight.
    pub fn new(url_cache: UrlCache) -> (mimes: Self)
        ensures
            mimes@ == (MimesState { cache: url_cache@, in_flight: Map::empty() }),
    {
        let mimes = UrlMimes { cache: url_cache, in_flight: StringHashMap::new() };
        assert(probes_of(mimes.in_flight@) =~= Map::empty());
        mimes
    }

    /// Looks `url` up. The answer holds the MIME type where it is known, and
    /// tells the caller to start a probe where none is in flight; the caller
    /// reports what the probe gave with `resolve` and asks again later.
    pub fn get(&mut self, url: &str) -> (found: Lookup)
        ensures
            (final(self)@, found@) == lookup(old(self)@, url@),
    {
        if let Some(mime_type) = self.cache.get_type(url) {
            return Lookup { mime_type: Some(mime_type), start_probe: false };
        }
        let ghost before = self.in_flight@;
        match self.in_flight.get(url) {
            Some(Probe::Done(Ok(mime_type))) => {
                let mime_type = mime_type.clone();
                self.cache.set_type(url.to_owned(), mime_type.clone());
                self.in_flight.remove(url);
                assert(probes_of(self.in_flight@) =~= probes_of(before).remove(url@));
                Lookup { mime_type: Some(mime_type), start_probe: false }
            },
            Some(Probe::Done(Err(HttpError::HttpFailure))) => {
                self.in_flight.remove(url);
                assert(probes_of(self.in_flight@) =~= probes_of(before).remove(url@));
                Lookup { mime_type: None, start_probe: false }
            },
            Some(Probe::Done(Err(HttpError::MissingHeader))) => Lookup {
                mime_type: None,
                start_probe: false,
            },
            Some(Probe::Pending) => Lookup { mime_type: None, start_probe: false },
            None => {
                self.in_flight.insert(url.to_owned(), Probe::Pending);
                assert(probes_of(self.in_flight@) =~= probes_of(before).insert(
                    url@,
                    ProbeState::Pending,
                ));
                Lookup { mime_type: None, start_probe: true }
            },
        }
    }

    /// Records that the probe of `url` has reported `result`. Without a
    /// pending probe of `url` nothing changes.
    pub fn resolve(&mut self, url: &str, result: MimeResult)
        ensures
            final(self)@ == resolved(old(self)@, url@, mime_result_view(result)),
    {
        let ghost before = self.in_flight@;
        let pending = match self.in_flight.get(url) {
            Some(Probe::Pending) => true,
            _ => false,
        };
        if pending {
            self.in_flight.insert(url.to_owned(), Probe::Done(result));
            assert(probes_of(self.in_flight@) =~= probes_of(before).insert(
                url@,
                ProbeState::Done(mime_result_view(result)),
            ));
        }
    }

    /// Whether a probe of `url` is in flight: started, and neither retired
    /// nor repeatable.
    pub fn is_in_flight(&self, url: &str) -> (in_flight: bool)
        ensures
            in_flight == self@.in_flight.contains_key(url@),
    {
        self.in_flight.contains_key(url)
    }
}

} // verus!
