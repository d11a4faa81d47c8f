//! The persistent cache: the live map, the moment it was last saved, and
//! whether the load scheduled at start is still awaited.
//!
//! The cache does no input or output itself. Its owner reads and writes the
//! backing file off the calling thread, tells the cache on each tick what
//! became of the load, and is told in turn when a save is due.

use crate::urls::table::UrlsToMime;
use vstd::prelude::*;

verus! {

/// Name of the file, below the application's cache directory, that holds the
/// saved map.
pub const FILE_NAME: &'static str = "urls.bin";

/// The time between two saves, in nanoseconds: one minute.
pub const SAVE_INTERVAL: u128 = 60_000_000_000;

/// What the owner found when it looked at the load scheduled at start.
pub enum LoadPoll {
    /// The load has not finished.
    Pending,
    /// The load has finished, with the map on disk or with nothing.
    Ready(Option<UrlsToMime>),
}

/// The state of a cache.
pub struct CacheState {
    /// The live map.
    pub entries: Map<Seq<char>, Seq<char>>,
    /// The backing file.
    pub path: Seq<char>,
    /// When the last save was started, in nanoseconds.
    pub last_saved: int,
    /// Whether the result of the load is still to be taken.
    pub load_pending: bool,
}

/// What a poll of the load reports: `None` while it runs, then the map read.
pub open spec fn load_view(load: LoadPoll) -> Option<Option<Map<Seq<char>, Seq<char>>>> {
    match load {
        LoadPoll::Pending => None,
        LoadPoll::Ready(None) => Some(None),
        LoadPoll::Ready(Some(from_disk)) => Some(Some(from_disk@)),
    }
}

/// A save is due at `now` when a full interval has passed since the last.
pub open spec fn save_due(last_saved: int, now: int) -> bool {
    now - last_saved >= SAVE_INTERVAL
}

/// The state of a new cache.
pub open spec fn initial_state(path: Seq<char>, now: int) -> CacheState {
    CacheState { entries: Map::empty(), path, last_saved: now, load_pending: true }
}

/// The state after `set_type`.
pub open spec fn state_after_set(
    state: CacheState,
    url: Seq<char>,
    mime_type: Seq<char>,
) -> CacheState {
    CacheState { entries: state.entries.insert(url, mime_type), ..state }
}

/// The state after the first duty of a tick. The result of the load is taken
/// once: while it is awaited and `load` shows it finished. What it read is
/// merged into the live map, whose own entries stay as they are.
pub open spec fn state_after_load(
    state: CacheState,
    load: Option<Option<Map<Seq<char>, Seq<char>>>>,
) -> CacheState {
    if !state.load_pending {
        state
    } else {
        match load {
            None => state,
            Some(None) => CacheState { load_pending: false, ..state },
            Some(Some(from_disk)) => CacheState {
                entries: from_disk.union_prefer_right(state.entries),
                load_pending: false,
                ..state
            },
        }
    }
}

/// The state after the second duty of a tick: a save that is due starts,
/// and the interval runs from `now`.
pub open spec fn state_after_save(state: CacheState, now: int) -> CacheState {
    if save_due(state.last_saved, now) {
        CacheState { last_saved: now, ..state }
    } else {
        state
    }
}

/// The state after a tick.
pub open spec fn state_after_tick(
    state: CacheState,
    load: Option<Option<Map<Seq<char>, Seq<char>>>>,
    now: int,
) -> CacheState {
    state_after_save(state_after_load(state, load), now)
}

/// Caches the MIME type of each URL and asks to be saved once a minute.
pub struct UrlCache {
    last_saved: u128,
    path: String,
    cache: UrlsToMime,
    load_pending: bool,
}

impl View for UrlCache {
    type V = CacheState;

    closed spec fn view(&self) -> CacheState {
        CacheState {
            entries: self.cache@,
            path: self.path@,
            last_saved: self.last_saved as int,
            load_pending: self.load_pending,
        }
    }
}

impl UrlCache {
    /// The name of the backing file.
    pub fn rel_dir() -> (name: &'static str)
        ensures
            name@ == FILE_NAME@,
    {
        FILE_NAME
    }

    /// A cache without entries, backed by the file at `path` and created at
    /// `now`. The owner schedules the load of that file at once.
    pub fn new(path: String, now: u128) -> (cache: Self)
        ensures
            cache@ == initial_state(path@, now as int),
    {
        UrlCache { last_saved: now, path, cache: UrlsToMime::new(), load_pending: true }
    }

    /// The backing file.
    pub fn path(&self) -> (path: &str)
        ensures
            path@ == self@.path,
    {
        self.path.as_str()
    }

    /// When the last save was started.
    pub fn last_saved(&self) -> (at: u128)
        ensures
            at == self@.last_saved,
    {
        self.last_saved
    }

    /// Whether the result of the load is still to be taken.
    pub fn load_pending(&self) -> (pending: bool)
        ensures
            pending == self@.load_pending,
    {
        self.load_pending
    }

    /// The MIME type cached for `url`, if there is one.
    pub fn get_type(&self, url: &str) -> (mime_type: Option<String>)
        ensures
            match mime_type {
                Some(value) => self@.entries.contains_key(url@) && value@ == self@.entries[url@],
                None => !self@.entries.contains_key(url@),
            },
    {
        self.cache.get(url)
    }

    /// Caches `mime_type` for `url`, in place of what was cached before.
    pub fn set_type(&mut self, url: String, mime_type: String)
        ensures
            final(self)@ == state_after_set(old(self)@, url@, mime_type@),
    {
        self.cache.insert(url, mime_type);
    }

    /// The tick, to be called once per turn of the owner's loop with what a
    /// poll of the load gave and with the time.
    ///
    /// It takes the result of the load, once, and merges it into the live
    /// map without replacing an entry. Then, if a minute has passed since
    /// the last save, it hands back a copy of the map for the owner to write
    /// to the backing file, and counts the next minute from `now`.
    pub fn handle_io(&mut self, load: LoadPoll, now: u128) -> (save: Option<UrlsToMime>)
        ensures
            final(self)@ == state_after_tick(old(self)@, load_view(load), now as int),
            match save {
                Some(snapshot) => save_due(old(self)@.last_saved, now as int) && snapshot@
                    == final(self)@.entries,
                None => !save_due(old(self)@.last_saved, now as int),
            },
    {
        if self.load_pending {
            match load {
                LoadPoll::Ready(maybe_cache) => {
                    match maybe_cache {
                        Some(from_disk) => {
                            self.cache.merge(&from_disk);
                        },
                        None => {},
                    }
                    self.load_pending = false;
                },
                LoadPoll::Pending => {},
            }
        }
        if now >= self.last_saved && now - self.last_saved >= SAVE_INTERVAL {
            self.last_saved = now;
            Some(self.cache.snapshot())
        } else {
            None
        }
    }
}

} // verus!
