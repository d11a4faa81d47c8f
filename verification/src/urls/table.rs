//! The table behind the cache: a finite map from URL to MIME type that can
//! be looked up in constant time and listed entry by entry.

use vstd::hash_map::StringHashMap;
use vstd::prelude::*;

verus! {

/// The keys of `entries` are pairwise different.
pub open spec fn distinct_keys(entries: Seq<(String, String)>) -> bool {
    forall|i: int, j: int|
        0 <= i < j < entries.len() ==> (#[trigger] entries[i]).0@ != (#[trigger] entries[j]).0@
}

/// Some entry of `entries` has the key `key`.
pub open spec fn has_key(entries: Seq<(String, String)>, key: Seq<char>) -> bool {
    exists|i: int| 0 <= i < entries.len() && (#[trigger] entries[i]).0@ == key
}

/// The entry at `i` is the last one of `entries` with the key `key`.
pub open spec fn is_last(entries: Seq<(String, String)>, i: int, key: Seq<char>) -> bool {
    &&& 0 <= i < entries.len()
    &&& entries[i].0@ == key
    &&& forall|j: int| i < j < entries.len() ==> (#[trigger] entries[j]).0@ != key
}

/// The map that a list of entries stands for. Where a key occurs more than
/// once, its last entry counts.
pub open spec fn map_of_entries(entries: Seq<(String, String)>) -> Map<Seq<char>, Seq<char>> {
    Map::new(
        |key: Seq<char>| has_key(entries, key),
        |key: Seq<char>| entries[choose|i: int| is_last(entries, i, key)].1@,
    )
}

/// A key that occurs in a list has a last entry there.
pub proof fn lemma_last_exists(entries: Seq<(String, String)>, key: Seq<char>)
    requires
        has_key(entries, key),
    ensures
        exists|i: int| is_last(entries, i, key),
    decreases entries.len(),
{
    let end = entries.len() - 1;
    if entries[end].0@ == key {
        assert(is_last(entries, end, key));
    } else {
        let front = entries.drop_last();
        let some = choose|i: int| 0 <= i < entries.len() && (#[trigger] entries[i]).0@ == key;
        assert(front[some].0@ == key);
        lemma_last_exists(front, key);
        let i = choose|i: int| is_last(front, i, key);
        assert forall|j: int| i < j < entries.len() implies (#[trigger] entries[j]).0@ != key by {
            if j < end {
                assert(front[j].0@ != key);
            }
        }
        assert(is_last(entries, i, key));
    }
}

/// The last entry of a key is the entry of that key in the map of the list.
pub proof fn lemma_map_of_entries(entries: Seq<(String, String)>, i: int)
    requires
        is_last(entries, i, entries[i].0@),
    ensures
        map_of_entries(entries).contains_key(entries[i].0@),
        map_of_entries(entries)[entries[i].0@] == entries[i].1@,
{
    let key = entries[i].0@;
    let j = choose|j: int| is_last(entries, j, key);
    assert(j == i);
}

/// In a list with distinct keys every entry is the last one of its key.
pub proof fn lemma_distinct_entries_are_last(entries: Seq<(String, String)>, i: int)
    requires
        distinct_keys(entries),
        0 <= i < entries.len(),
    ensures
        is_last(entries, i, entries[i].0@),
{
}

/// Some entry of `entries` at `from` or later has the key `key`.
spec fn has_key_from(entries: Seq<(String, String)>, from: int, key: Seq<char>) -> bool {
    exists|j: int| from <= j < entries.len() && (#[trigger] entries[j]).0@ == key
}

/// `now` is `before` with the entries of `all` from `from` on added, each
/// under a key that `before` lacks, and of several with one key the last.
spec fn absorbed(
    before: Map<Seq<char>, Seq<char>>,
    all: Seq<(String, String)>,
    from: int,
    now: Map<Seq<char>, Seq<char>>,
) -> bool {
    &&& forall|key: Seq<char>| #[trigger]
        now.contains_key(key) <==> before.contains_key(key) || has_key_from(all, from, key)
    &&& forall|key: Seq<char>| #[trigger] before.contains_key(key) ==> now[key] == before[key]
    &&& forall|j: int|
        from <= j < all.len() && is_last(all, j, (#[trigger] all[j]).0@) && !before.contains_key(
            all[j].0@,
        ) ==> now[all[j].0@] == all[j].1@
}

/// A key occurs from `from` on if it is the key at `from` or occurs later.
proof fn lemma_has_key_from(entries: Seq<(String, String)>, from: int, key: Seq<char>)
    requires
        0 <= from < entries.len(),
    ensures
        has_key_from(entries, from, key) <==> entries[from].0@ == key || has_key_from(
            entries,
            from + 1,
            key,
        ),
{
    if has_key_from(entries, from, key) {
        let j = choose|j: int| from <= j < entries.len() && (#[trigger] entries[j]).0@ == key;
        if j > from {
            assert(from + 1 <= j < entries.len() && entries[j].0@ == key);
        }
    }
    if has_key_from(entries, from + 1, key) {
        let j = choose|j: int| from + 1 <= j < entries.len() && (#[trigger] entries[j]).0@ == key;
        assert(from <= j < entries.len() && entries[j].0@ == key);
    }
    if entries[from].0@ == key {
        assert(from <= from < entries.len() && entries[from].0@ == key);
    }
}

/// Taking in the entry at `from`, where its key is new, or passing it over,
/// where its key is held, carries `absorbed` from `from + 1` to `from`.
proof fn lemma_absorb_step(
    before: Map<Seq<char>, Seq<char>>,
    all: Seq<(String, String)>,
    from: int,
    earlier: Map<Seq<char>, Seq<char>>,
    now: Map<Seq<char>, Seq<char>>,
)
    requires
        0 <= from < all.len(),
        absorbed(before, all, from + 1, earlier),
        now == if earlier.contains_key(all[from].0@) {
            earlier
        } else {
            earlier.insert(all[from].0@, all[from].1@)
        },
    ensures
        absorbed(before, all, from, now),
{
    let new_key = all[from].0@;
    assert forall|key: Seq<char>| #[trigger]
        now.contains_key(key) <==> before.contains_key(key) || has_key_from(all, from, key) by {
        lemma_has_key_from(all, from, key);
        assert(earlier.contains_key(key) <==> before.contains_key(key) || has_key_from(
            all,
            from + 1,
            key,
        ));
    }
    assert forall|key: Seq<char>| #[trigger] before.contains_key(key) implies now[key]
        == before[key] by {
        assert(earlier.contains_key(key));
    }
    assert forall|j: int|
        from <= j < all.len() && is_last(all, j, (#[trigger] all[j]).0@) && !before.contains_key(
            all[j].0@,
        ) implies now[all[j].0@] == all[j].1@ by {
        let key = all[j].0@;
        if j == from {
            if earlier.contains_key(new_key) {
                assert(has_key_from(all, from + 1, new_key));
                let later = choose|later: int|
                    from + 1 <= later < all.len() && (#[trigger] all[later]).0@ == new_key;
                assert(all[later].0@ != new_key);
            }
        } else {
            assert(from + 1 <= j < all.len() && all[j].0@ == key);
            assert(has_key_from(all, from + 1, key));
            assert(earlier.contains_key(key));
            assert(earlier[key] == all[j].1@);
        }
    }
}

/// Once every entry is taken in or passed over, the result is the union in
/// which the entries of `before` stand.
proof fn lemma_absorb_done(
    before: Map<Seq<char>, Seq<char>>,
    all: Seq<(String, String)>,
    now: Map<Seq<char>, Seq<char>>,
)
    requires
        absorbed(before, all, 0, now),
    ensures
        now =~= map_of_entries(all).union_prefer_right(before),
{
    let merged = map_of_entries(all).union_prefer_right(before);
    assert forall|key: Seq<char>| now.contains_key(key) <==> merged.contains_key(key) by {
        assert(now.contains_key(key) <==> before.contains_key(key) || has_key_from(all, 0, key));
        if has_key_from(all, 0, key) {
            let j = choose|j: int| 0 <= j < all.len() && (#[trigger] all[j]).0@ == key;
            assert(has_key(all, key));
        }
        if has_key(all, key) {
            let j = choose|j: int| 0 <= j < all.len() && (#[trigger] all[j]).0@ == key;
            assert(has_key_from(all, 0, key));
        }
    }
    assert forall|key: Seq<char>| merged.contains_key(key) implies now[key] == merged[key] by {
        if before.contains_key(key) {
            assert(now[key] == before[key]);
        } else {
            lemma_last_exists(all, key);
            let j = choose|j: int| is_last(all, j, key);
            lemma_map_of_entries(all, j);
            assert(is_last(all, j, all[j].0@));
        }
    }
}

/// What a hash index holds, with the values seen as character sequences.
spec fn entries_of(index: Map<Seq<char>, String>) -> Map<Seq<char>, Seq<char>> {
    Map::new(|key: Seq<char>| index.contains_key(key), |key: Seq<char>| index[key]@)
}

/// `urls` lists the keys of `index`, each once.
spec fn listed(index: Map<Seq<char>, String>, urls: Seq<String>) -> bool {
    &&& forall|i: int, j: int| 0 <= i < j < urls.len() ==> #[trigger] urls[i]@ != #[trigger] urls[j]@
    &&& forall|i: int| 0 <= i < urls.len() ==> index.contains_key(#[trigger] urls[i]@)
    &&& forall|key: Seq<char>|
        index.contains_key(key) ==> exists|i: int| 0 <= i < urls.len() && #[trigger] urls[i]@ == key
}

/// A finite map from URL to MIME type.
///
/// Its view is the map itself, as a `Map` from character sequence to
/// character sequence.
pub struct UrlsToMime {
    index: StringHashMap<String>,
    urls: Vec<String>,
}

impl View for UrlsToMime {
    type V = Map<Seq<char>, Seq<char>>;

    closed spec fn view(&self) -> Map<Seq<char>, Seq<char>> {
        entries_of(self.index@)
    }
}

impl UrlsToMime {
    #[verifier::type_invariant]
    spec fn well_formed(&self) -> bool {
        listed(self.index@, self.urls@)
    }

    /// The empty map.
    pub fn new() -> (table: Self)
        ensures
            table@ == Map::<Seq<char>, Seq<char>>::empty(),
    {
        let table = UrlsToMime { index: StringHashMap::new(), urls: Vec::new() };
        assert(table@ =~= Map::<Seq<char>, Seq<char>>::empty());
        table
    }

    /// Whether the map has an entry for `url`.
    pub fn contains_key(&self, url: &str) -> (found: bool)
        ensures
            found == self@.contains_key(url@),
    {
        self.index.contains_key(url)
    }

    /// The MIME type recorded for `url`, if there is one.
    pub fn get(&self, url: &str) -> (mime_type: Option<String>)
        ensures
            match mime_type {
                Some(value) => self@.contains_key(url@) && value@ == self@[url@],
                None => !self@.contains_key(url@),
            },
    {
        match self.index.get(url) {
            Some(value) => Some(value.clone()),
            None => None,
        }
    }

    /// Records `mime_type` for `url`, in place of what was recorded before.
    pub fn insert(&mut self, url: String, mime_type: String)
        ensures
            final(self)@ == old(self)@.insert(url@, mime_type@),
    {
        let mut taken = UrlsToMime::new();
        proof {
            use_type_invariant(&*self);
            use_type_invariant(&taken);
        }
        std::mem::swap(self, &mut taken);
        let UrlsToMime { mut index, mut urls } = taken;
        let ghost before = index@;
        let ghost listing = urls@;
        if !index.contains_key(url.as_str()) {
            urls.push(url.clone());
        }
        index.insert(url, mime_type);
        proof {
            assert forall|key: Seq<char>| index@.contains_key(key) implies exists|i: int|
                0 <= i < urls.len() && #[trigger] urls[i]@ == key by {
                if before.contains_key(key) {
                    let i = choose|i: int| 0 <= i < listing.len() && #[trigger] listing[i]@ == key;
                    assert(urls[i]@ == key);
                } else {
                    assert(urls[urls.len() - 1]@ == key);
                }
            }
            assert(entries_of(index@) =~= entries_of(before).insert(url@, mime_type@));
        }
        *self = UrlsToMime { index, urls };
    }

    /// The entries of the map, each once.
    pub fn entries(&self) -> (entries: Vec<(String, String)>)
        ensures
            distinct_keys(entries@),
            map_of_entries(entries@) == self@,
    {
        proof {
            use_type_invariant(self);
        }
        let mut entries: Vec<(String, String)> = Vec::new();
        let mut i: usize = 0;
        while i < self.urls.len()
            invariant
                listed(self.index@, self.urls@),
                0 <= i <= self.urls.len(),
                entries.len() == i,
                forall|j: int|
                    0 <= j < i ==> (#[trigger] entries[j]).0@ == self.urls[j]@ && entries[j].1@
                        == self.index@[self.urls[j]@]@,
            decreases self.urls.len() - i,
        {
            let url = &self.urls[i];
            match self.index.get(url.as_str()) {
                Some(mime_type) => {
                    entries.push((url.clone(), mime_type.clone()));
                },
                None => {
                    proof {
                        assert(self.index@.contains_key(self.urls[i as int]@));
                        assert(false);
                    }
                },
            }
            i = i + 1;
        }
        proof {
            assert(distinct_keys(entries@));
            assert forall|key: Seq<char>| self@.contains_key(key) implies has_key(
                entries@,
                key,
            ) by {
                let j = choose|j: int| 0 <= j < self.urls.len() && #[trigger] self.urls[j]@ == key;
                assert(entries[j].0@ == key);
            }
            assert forall|key: Seq<char>| has_key(entries@, key) implies self@.contains_key(key)
                && map_of_entries(entries@)[key] == self@[key] by {
                let j = choose|j: int| 0 <= j < entries.len() && (#[trigger] entries[j]).0@ == key;
                lemma_distinct_entries_are_last(entries@, j);
                lemma_map_of_entries(entries@, j);
            }
            assert(map_of_entries(entries@) =~= self@);
        }
        entries
    }

    /// The number of entries.
    pub fn len(&self) -> (count: usize)
        ensures
            count == self@.len(),
    {
        assert(self@.dom() =~= self.index@.dom());
        self.index.len()
    }

    /// Adds the entries of `entries` whose key the map does not hold yet;
    /// of several entries with one key, the last.
    fn absorb(&mut self, entries: Vec<(String, String)>)
        ensures
            final(self)@ == map_of_entries(entries@).union_prefer_right(old(self)@),
    {
        let ghost before = self@;
        let ghost all = entries@;
        let mut entries = entries;
        proof {
            assert forall|key: Seq<char>| !has_key_from(all, all.len() as int, key) by {}
        }
        while entries.len() > 0
            invariant
                entries.len() <= all.len(),
                entries@ == all.take(entries.len() as int),
                absorbed(before, all, entries.len() as int, self@),
            decreases entries.len(),
        {
            let ghost from = entries.len() - 1;
            let ghost earlier = self@;
            match entries.pop() {
                Some((url, mime_type)) => {
                    assert(url == all[from].0 && mime_type == all[from].1);
                    if !self.contains_key(url.as_str()) {
                        self.insert(url, mime_type);
                    }
                },
                None => {},
            }
            proof {
                lemma_absorb_step(before, all, from, earlier, self@);
            }
        }
        proof {
            lemma_absorb_done(before, all, self@);
        }
    }

    /// The map that a list of entries stands for. Where a key occurs more
    /// than once, its last entry counts.
    pub fn from_entries(entries: Vec<(String, String)>) -> (table: Self)
        ensures
            table@ == map_of_entries(entries@),
    {
        let mut table = UrlsToMime::new();
        table.absorb(entries);
        assert(table@ =~= map_of_entries(entries@));
        table
    }

    /// Merges what was read from disk into the live map: an entry of
    /// `from_disk` is taken over unless the live map already has one for its
    /// key.
    pub fn merge(&mut self, from_disk: &UrlsToMime)
        ensures
            final(self)@ == from_disk@.union_prefer_right(old(self)@),
    {
        self.absorb(from_disk.entries());
    }

    /// A copy of the map as it stands.
    pub fn snapshot(&self) -> (copy: Self)
        ensures
            copy@ == self@,
    {
        UrlsToMime::from_entries(self.entries())
    }
}

} // verus!
