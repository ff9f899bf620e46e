use vstd::prelude::*;
use crate::resource::{copy_key, key_view, RegistryResource};

verus! {

/// One package identity as the caching layer stores it.
pub struct CacheEntry {
    pub package: String,
    /// Key to replay to the inner client; `None` when nothing reusable is kept.
    pub cache_key: Option<String>,
    /// Last complete payload persisted for this identity.
    pub payload: Option<Vec<u8>>,
    /// Whether a fetch from the inner client is under way for this identity.
    pub in_flight: bool,
}

/// What the caching layer knows of one package identity.
pub struct EntryView {
    pub cache_key: Option<Seq<char>>,
    pub payload: Option<Seq<u8>>,
    pub in_flight: bool,
}

pub open spec fn payload_view(p: Option<Vec<u8>>) -> Option<Seq<u8>> {
    match p {
        Some(v) => Some(v@),
        None => None,
    }
}

impl CacheEntry {
    pub open spec fn view(&self) -> EntryView {
        EntryView {
            cache_key: key_view(self.cache_key),
            payload: payload_view(self.payload),
            in_flight: self.in_flight,
        }
    }
}

/// The state of an identity that the cache has never seen.
pub open spec fn unknown_entry() -> EntryView {
    EntryView { cache_key: None, payload: None, in_flight: false }
}

/// The entry of `p` in `m`, or an empty one.
pub open spec fn entry_in(m: Map<Seq<char>, EntryView>, p: Seq<char>) -> EntryView {
    if m.contains_key(p) {
        m[p]
    } else {
        unknown_entry()
    }
}

/// Whether a fetch for `p` is under way.
pub open spec fn fetching(m: Map<Seq<char>, EntryView>, p: Seq<char>) -> bool {
    entry_in(m, p).in_flight
}

/// The cache after a caller became the one fetcher of `p`.
pub open spec fn begun(m: Map<Seq<char>, EntryView>, p: Seq<char>) -> Map<Seq<char>, EntryView> {
    m.insert(p, EntryView { in_flight: true, ..entry_in(m, p) })
}

/// The cache after the fetch of `p` failed or was cancelled.
pub open spec fn abandoned(m: Map<Seq<char>, EntryView>, p: Seq<char>) -> Map<Seq<char>, EntryView> {
    if m.contains_key(p) {
        m.insert(p, EntryView { in_flight: false, ..m[p] })
    } else {
        m
    }
}

/// The cache after the inner client answered `res` for `p`.
pub open spec fn finished(
    m: Map<Seq<char>, EntryView>,
    p: Seq<char>,
    res: RegistryResource<Vec<u8>>,
) -> Map<Seq<char>, EntryView> {
    match res {
        RegistryResource::Download { resource, cache_key } => m.insert(
            p,
            EntryView { cache_key: key_view(cache_key), payload: Some(resource@), in_flight: false },
        ),
        _ => abandoned(m, p),
    }
}

/// Once a caller has begun fetching `p`, every later caller asking for `p`
/// waits until that fetch finishes or is abandoned; fetches of other
/// identities are not held up.
pub proof fn lemma_single_flight(m: Map<Seq<char>, EntryView>, p: Seq<char>, q: Seq<char>)
    requires
        !fetching(m, p),
    ensures
        fetching(begun(m, p), p),
        q != p ==> fetching(begun(m, p), q) == fetching(m, q),
        entry_in(begun(m, p), q).cache_key == entry_in(m, q).cache_key,
        entry_in(begun(m, p), q).payload == entry_in(m, q).payload,
{
}

/// A completed download is available whole to every caller that waited for
/// it, and the fetch of its identity is over.
pub proof fn lemma_download_visible(
    m: Map<Seq<char>, EntryView>,
    p: Seq<char>,
    resource: Vec<u8>,
    cache_key: Option<String>,
)
    ensures
        ({
            let n = finished(m, p, RegistryResource::Download { resource, cache_key });
            entry_in(n, p).payload == Some(resource@) && !fetching(n, p)
        }),
{
}

/// A failed or cancelled fetch leaves no fetch marked under way and changes no
/// stored key or payload, of any identity.
pub proof fn lemma_abandon_clean(m: Map<Seq<char>, EntryView>, p: Seq<char>, q: Seq<char>)
    ensures
        !fetching(abandoned(m, p), p),
        entry_in(abandoned(m, p), q).cache_key == entry_in(m, q).cache_key,
        entry_in(abandoned(m, p), q).payload == entry_in(m, q).payload,
        q != p ==> fetching(abandoned(m, p), q) == fetching(m, q),
{
}

/// Persisting the same download of an identity twice leaves the cache as
/// persisting it once does.
pub proof fn lemma_download_idempotent(
    m: Map<Seq<char>, EntryView>,
    p: Seq<char>,
    resource: Vec<u8>,
    cache_key: Option<String>,
)
    ensures
        ({
            let d = RegistryResource::Download { resource, cache_key };
            finished(finished(m, p, d), p, d) == finished(m, p, d)
        }),
{
    let d = RegistryResource::Download { resource, cache_key };
    assert(finished(finished(m, p, d), p, d) =~= finished(m, p, d));
}

/// A download without a cache key is persisted, but no key is kept for its
/// identity: the next fetch replays none and goes through the inner client
/// in full.
pub proof fn lemma_uncacheable_not_kept(m: Map<Seq<char>, EntryView>, p: Seq<char>, resource: Vec<u8>)
    ensures
        ({
            let n = finished(m, p, RegistryResource::Download { resource, cache_key: None });
            entry_in(n, p).cache_key is None && entry_in(n, p).payload == Some(resource@) && !fetching(n, p)
        }),
{
}

/// Index of the first entry for `p` at or after `i`, or -1.
pub open spec fn find_from(s: Seq<CacheEntry>, p: Seq<char>, i: int) -> int
    decreases s.len() - i,
{
    if i < 0 || i >= s.len() {
        -1
    } else if s[i].package@ == p {
        i
    } else {
        find_from(s, p, i + 1)
    }
}

proof fn lemma_find_found(s: Seq<CacheEntry>, p: Seq<char>, i: int)
    ensures
        find_from(s, p, i) == -1 || (0 <= find_from(s, p, i) < s.len() && s[find_from(s, p, i)].package@ == p),
    decreases s.len() - i,
{
    if 0 <= i < s.len() && s[i].package@ != p {
        lemma_find_found(s, p, i + 1);
    }
}

proof fn lemma_find_update(s: Seq<CacheEntry>, idx: int, e: CacheEntry, q: Seq<char>, i: int)
    requires
        0 <= idx < s.len(),
        s[idx].package@ == e.package@,
    ensures
        find_from(s.update(idx, e), q, i) == find_from(s, q, i),
    decreases s.len() - i,
{
    if 0 <= i < s.len() {
        lemma_find_update(s, idx, e, q, i + 1);
    }
}

proof fn lemma_find_push(s: Seq<CacheEntry>, e: CacheEntry, q: Seq<char>, i: int)
    requires
        0 <= i <= s.len(),
    ensures
        find_from(s.push(e), q, i) == (if find_from(s, q, i) >= 0 {
            find_from(s, q, i)
        } else if e.package@ == q {
            s.len() as int
        } else {
            -1
        }),
    decreases s.len() - i,
{
    if i < s.len() {
        lemma_find_push(s, e, q, i + 1);
    } else {
        assert(find_from(s.push(e), q, i + 1) == -1);
    }
}

/// The entries of `s`, by identity; the first entry of an identity counts.
pub open spec fn entries_view(s: Seq<CacheEntry>) -> Map<Seq<char>, EntryView> {
    Map::new(|p: Seq<char>| find_from(s, p, 0) >= 0, |p: Seq<char>| s[find_from(s, p, 0)].view())
}

proof fn lemma_view_update(s: Seq<CacheEntry>, i: int, e: CacheEntry)
    requires
        0 <= i < s.len(),
        find_from(s, e.package@, 0) == i,
    ensures
        entries_view(s.update(i, e)) == entries_view(s).insert(e.package@, e.view()),
{
    let p = e.package@;
    let n = s.update(i, e);
    lemma_find_found(s, p, 0);
    assert forall|q: Seq<char>| #[trigger] find_from(n, q, 0) == find_from(s, q, 0) by {
        lemma_find_update(s, i, e, q, 0);
    }
    assert forall|q: Seq<char>| entries_view(n).contains_key(q) implies #[trigger] entries_view(n)[q]
        == entries_view(s).insert(p, e.view())[q] by {
        lemma_find_found(s, q, 0);
        if q != p {
            assert(n[find_from(s, q, 0)] == s[find_from(s, q, 0)]);
        }
    }
    assert(entries_view(n) =~= entries_view(s).insert(p, e.view()));
}

proof fn lemma_view_push(s: Seq<CacheEntry>, e: CacheEntry)
    requires
        find_from(s, e.package@, 0) == -1,
    ensures
        entries_view(s.push(e)) == entries_view(s).insert(e.package@, e.view()),
{
    let p = e.package@;
    let n = s.push(e);
    assert forall|q: Seq<char>| #[trigger] find_from(n, q, 0) == (if find_from(s, q, 0) >= 0 {
        find_from(s, q, 0)
    } else if p == q {
        s.len() as int
    } else {
        -1
    }) by {
        lemma_find_push(s, e, q, 0);
    }
    assert forall|q: Seq<char>| entries_view(n).contains_key(q) implies #[trigger] entries_view(n)[q]
        == entries_view(s).insert(p, e.view())[q] by {
        lemma_find_found(s, q, 0);
    }
    assert(entries_view(n) =~= entries_view(s).insert(p, e.view()));
}

/// Local store of the caching layer, keyed by package identity.
///
/// A payload enters the store only whole, when the inner client's answer is
/// complete; a fetch that fails or is cancelled changes no key and no payload.
pub struct RegistryCache {
    entries: Vec<CacheEntry>,
}

/// How a caller goes on after asking to fetch an identity.
pub enum Begin {
    /// Another caller is fetching this identity: wait for it, then read the cache.
    Wait,
    /// This caller fetches from the inner client, replaying `cache_key`.
    Fetch { cache_key: Option<String> },
}

fn copy_bytes(v: &Vec<u8>) -> (r: Vec<u8>)
    ensures
        r@ == v@,
{
    let mut r: Vec<u8> = Vec::with_capacity(v.len());
    let mut i: usize = 0;
    while i < v.len()
        invariant
            0 <= i <= v.len(),
            r@ == v@.subrange(0, i as int),
        decreases v.len() - i,
    {
        r.push(v[i]);
        i += 1;
        assert(r@ =~= v@.subrange(0, i as int));
    }
    assert(r@ =~= v@);
    r
}

impl RegistryCache {
    /// Every identity's entry, by identity.
    pub closed spec fn view(&self) -> Map<Seq<char>, EntryView> {
        entries_view(self.entries@)
    }

    /// An empty cache.
    pub fn new() -> (r: Self)
        ensures
            r@ == Map::<Seq<char>, EntryView>::empty(),
    {
        let r = RegistryCache { entries: Vec::new() };
        assert(r@ =~= Map::<Seq<char>, EntryView>::empty());
        r
    }

    fn position(&self, package: &String) -> (r: Option<usize>)
        ensures
            match r {
                Some(i) => find_from(self.entries@, package@, 0) == i as int && i < self.entries.len()
                    && self.entries@[i as int].package@ == package@,
                None => find_from(self.entries@, package@, 0) == -1,
            },
    {
        let mut i: usize = 0;
        while i < self.entries.len()
            invariant
                0 <= i <= self.entries.len(),
                find_from(self.entries@, package@, 0) == find_from(self.entries@, package@, i as int),
            decreases self.entries.len() - i,
        {
            if self.entries[i].package == *package {
                proof {
                    lemma_find_found(self.entries@, package@, 0);
                }
                return Some(i);
            }
            i += 1;
        }
        None
    }

    /// Replaces the entry of `e.package`, or adds it.
    fn put(&mut self, e: CacheEntry)
        ensures
            final(self)@ == old(self)@.insert(e.package@, e.view()),
    {
        let ghost s = self.entries@;
        match self.position(&e.package) {
            Some(i) => {
                proof {
                    lemma_find_found(s, e.package@, 0);
                    lemma_view_update(s, i as int, e);
                }
                self.entries.set(i, e);
            },
            None => {
                proof {
                    lemma_view_push(s, e);
                }
                self.entries.push(e);
            },
        }
    }

    /// Marks the entry at `i` as fetching or not, keeping its key and payload.
    fn set_in_flight(&mut self, i: usize, flag: bool)
        requires
            i < old(self).entries.len(),
            find_from(old(self).entries@, old(self).entries@[i as int].package@, 0) == i,
        ensures
            ({
                let p = old(self).entries@[i as int].package@;
                final(self)@ == old(self)@.insert(p, EntryView { in_flight: flag, ..old(self)@[p] })
            }),
    {
        let ghost s = self.entries@;
        let e = self.entries.remove(i);
        let ne = CacheEntry { package: e.package, cache_key: e.cache_key, payload: e.payload, in_flight: flag };
        self.entries.insert(i, ne);
        proof {
            lemma_find_found(s, ne.package@, 0);
            assert(self.entries@ =~= s.update(i as int, ne));
            lemma_view_update(s, i as int, ne);
        }
    }

    /// Asks to fetch `package` from the inner client.
    ///
    /// At most one caller at a time gets `Fetch` for an identity: while a
    /// fetch is under way every other caller gets `Wait`.
    pub fn begin(&mut self, package: &String) -> (r: Begin)
        ensures
            fetching(old(self)@, package@) ==> r is Wait && final(self)@ == old(self)@,
            !fetching(old(self)@, package@) ==> (r matches Begin::Fetch { cache_key }
                && key_view(cache_key) == entry_in(old(self)@, package@).cache_key
                && final(self)@ == begun(old(self)@, package@)),
    {
        match self.position(package) {
            None => {
                let e = CacheEntry { package: package.clone(), cache_key: None, payload: None, in_flight: true };
                self.put(e);
                assert(self@ =~= begun(old(self)@, package@));
                Begin::Fetch { cache_key: None }
            },
            Some(i) => {
                if self.entries[i].in_flight {
                    Begin::Wait
                } else {
                    let key = copy_key(&self.entries[i].cache_key);
                    self.set_in_flight(i, true);
                    assert(self@ =~= begun(old(self)@, package@));
                    Begin::Fetch { cache_key: key }
                }
            },
        }
    }

    /// Gives up the fetch of `package` after a failure or a cancellation.
    ///
    /// No key and no payload change: the next caller fetches again.
    pub fn abandon(&mut self, package: &String)
        ensures
            final(self)@ == abandoned(old(self)@, package@),
    {
        match self.position(package) {
            None => {},
            Some(i) => {
                self.set_in_flight(i, false);
            },
        }
    }

    /// Records what the inner client answered for `package`; returns whether a
    /// payload is now available for it.
    ///
    /// A download is persisted whole; its key is kept only where the inner
    /// client gave one. A missing package or a confirmed cache key leaves the
    /// stored key and payload as they were.
    pub fn finish(&mut self, package: &String, res: RegistryResource<Vec<u8>>) -> (r: bool)
        ensures
            final(self)@ == finished(old(self)@, package@, res),
            r == entry_in(final(self)@, package@).payload is Some,
    {
        match res {
            RegistryResource::Download { resource, cache_key } => {
                let e = CacheEntry {
                    package: package.clone(),
                    cache_key,
                    payload: Some(resource),
                    in_flight: false,
                };
                self.put(e);
                true
            },
            _ => {
                match self.position(package) {
                    None => false,
                    Some(i) => {
                        let available = self.entries[i].payload.is_some();
                        self.set_in_flight(i, false);
                        available
                    },
                }
            },
        }
    }

    /// Takes the inner client's answer for `package`, records it, and returns
    /// what the caller of the caching layer gets: nothing for a missing
    /// package, the stored payload for a confirmed cache key, and the fresh
    /// payload for a download.
    pub fn complete(&mut self, package: &String, res: RegistryResource<Vec<u8>>) -> (r: Option<Vec<u8>>)
        ensures
            final(self)@ == finished(old(self)@, package@, res),
            match res {
                RegistryResource::NotFound => r is None,
                RegistryResource::InCache => payload_view(r) == entry_in(old(self)@, package@).payload,
                RegistryResource::Download { resource, .. } => payload_view(r) == Some(resource@),
            },
    {
        let missing = match &res {
            RegistryResource::NotFound => true,
            _ => false,
        };
        self.finish(package, res);
        if missing {
            None
        } else {
            match self.cached(package) {
                Some(v) => Some(copy_bytes(v)),
                None => None,
            }
        }
    }

    /// The payload stored for `package`, if any.
    pub fn cached(&self, package: &String) -> (r: Option<&Vec<u8>>)
        ensures
            match r {
                Some(v) => entry_in(self@, package@).payload == Some(v@),
                None => entry_in(self@, package@).payload is None,
            },
    {
        match self.position(package) {
            None => None,
            Some(i) => {
                proof {
                    lemma_find_found(self.entries@, package@, 0);
                }
                match &self.entries[i].payload {
                    Some(v) => Some(v),
                    None => None,
                }
            },
        }
    }
}

} // verus!
