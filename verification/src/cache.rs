//! The token and session cache: values under a kind and a key, each with an
//! optional deadline after which it counts as absent. Single-use tokens are
//! redeemed with `take`, which reads and removes in one step; counters grow
//! with `increment` and lapse when their window ends.

use crate::model::{same_text, CacheId, UserSession, UserSessionView};
use vstd::prelude::*;

verus! {

/// What an entry holds. The kind of an entry fixes which of these it is.
#[derive(Debug, PartialEq, Eq)]
pub enum CacheValue {
    Session(UserSession),
    Text(String),
    Number(u64),
}

pub enum CacheValueView {
    Session(UserSessionView),
    Text(Seq<char>),
    Number(u64),
}

impl View for CacheValue {
    type V = CacheValueView;

    open spec fn view(&self) -> CacheValueView {
        match self {
            CacheValue::Session(s) => CacheValueView::Session(s@),
            CacheValue::Text(t) => CacheValueView::Text(t@),
            CacheValue::Number(n) => CacheValueView::Number(*n),
        }
    }
}

impl Clone for CacheValue {
    fn clone(&self) -> (r: Self)
        ensures
            r@ == self@,
    {
        match self {
            CacheValue::Session(s) => CacheValue::Session(s.clone()),
            CacheValue::Text(t) => CacheValue::Text(t.clone()),
            CacheValue::Number(n) => CacheValue::Number(*n),
        }
    }
}

pub open spec fn value_opt(o: Option<CacheValue>) -> Option<CacheValueView> {
    match o {
        Some(v) => Some(v@),
        None => None,
    }
}

/// A stored value and the second from which it no longer counts.
pub struct Slot {
    pub value: CacheValueView,
    pub expires_at: Option<u64>,
}

pub type CacheKey = (CacheId, Seq<char>);

pub type CacheMap = Map<CacheKey, Slot>;

/// Whether a deadline has not come at `now`. Without a deadline it never
/// comes.
pub open spec fn ahead(expires_at: Option<u64>, now: u64) -> bool {
    match expires_at {
        Some(t) => now < t,
        None => true,
    }
}

impl Slot {
    /// Whether the value still counts at `now`.
    pub open spec fn live(self, now: u64) -> bool {
        ahead(self.expires_at, now)
    }
}

/// The second at which a value stored at `now` for `ttl` seconds lapses.
pub open spec fn deadline(now: u64, ttl: Option<u64>) -> Option<u64> {
    match ttl {
        Some(t) => Some(
            if now + t > u64::MAX {
                u64::MAX
            } else {
                (now + t) as u64
            },
        ),
        None => None,
    }
}

/// The value under a kind and key at `now`: there, and not lapsed.
pub open spec fn lookup(m: CacheMap, id: CacheId, key: Seq<char>, now: u64) -> Option<
    CacheValueView,
> {
    if m.contains_key((id, key)) && m[(id, key)].live(now) {
        Some(m[(id, key)].value)
    } else {
        None
    }
}

/// The cache with a value stored under a kind and key at `now`, to lapse
/// after `ttl` seconds or never.
pub open spec fn stored(
    m: CacheMap,
    id: CacheId,
    key: Seq<char>,
    value: CacheValueView,
    ttl: Option<u64>,
    now: u64,
) -> CacheMap {
    m.insert((id, key), Slot { value, expires_at: deadline(now, ttl) })
}

/// The cache without what is under a kind and key.
pub open spec fn removed(m: CacheMap, id: CacheId, key: Seq<char>) -> CacheMap {
    m.remove((id, key))
}

/// The count under a kind and key at `now`; nothing there counts as zero.
pub open spec fn count_of(m: CacheMap, id: CacheId, key: Seq<char>, now: u64) -> u64 {
    match lookup(m, id, key, now) {
        Some(CacheValueView::Number(n)) => n,
        _ => 0,
    }
}

/// The count after one more; the largest number stays.
pub open spec fn next_count(n: u64) -> u64 {
    if n < u64::MAX {
        (n + 1) as u64
    } else {
        n
    }
}

/// The cache after one more count under a kind and key: a running counter
/// grows and keeps its deadline; otherwise a counter starts at one and lapses
/// `window` seconds from `now`.
pub open spec fn bumped(m: CacheMap, id: CacheId, key: Seq<char>, window: u64, now: u64) -> CacheMap {
    match lookup(m, id, key, now) {
        Some(CacheValueView::Number(n)) => m.insert(
            (id, key),
            Slot { value: CacheValueView::Number(next_count(n)), expires_at: m[(id, key)].expires_at },
        ),
        _ => m.insert(
            (id, key),
            Slot { value: CacheValueView::Number(1), expires_at: deadline(now, Some(window)) },
        ),
    }
}

/// One stored value with its kind, key and deadline.
pub struct Entry {
    id: CacheId,
    key: String,
    value: CacheValue,
    expires_at: Option<u64>,
}

spec fn key_of(e: Entry) -> CacheKey {
    (e.id, e.key@)
}

spec fn slot_of(e: Entry) -> Slot {
    Slot { value: e.value@, expires_at: e.expires_at }
}

fn is_live(expires_at: Option<u64>, now: u64) -> (r: bool)
    ensures
        r == ahead(expires_at, now),
{
    match expires_at {
        Some(t) => now < t,
        None => true,
    }
}

fn deadline_of(now: u64, ttl: Option<u64>) -> (r: Option<u64>)
    ensures
        r == deadline(now, ttl),
{
    match ttl {
        Some(t) => Some(if t > u64::MAX - now { u64::MAX } else { now + t }),
        None => None,
    }
}

/// An in-memory cache.
pub struct Cache {
    entries: Vec<Entry>,
    model: Ghost<CacheMap>,
}

impl View for Cache {
    type V = CacheMap;

    closed spec fn view(&self) -> CacheMap {
        self.model@
    }
}

impl Cache {
    /// The entries and the map they stand for agree, and no key is held twice.
    pub closed spec fn wf(&self) -> bool {
        let e = self.entries@;
        let m = self.model@;
        &&& forall|i: int|
            0 <= i < e.len() ==> m.contains_key(#[trigger] key_of(e[i])) && m[key_of(e[i])]
                == slot_of(e[i])
        &&& forall|i: int, j: int|
            0 <= i < j < e.len() ==> #[trigger] key_of(e[i]) != #[trigger] key_of(e[j])
        &&& forall|k: CacheKey| #[trigger]
            m.contains_key(k) ==> exists|i: int| 0 <= i < e.len() && #[trigger] key_of(e[i]) == k
    }

    /// A cache that holds nothing.
    pub fn new() -> (r: Cache)
        ensures
            r.wf(),
            r@ == Map::<CacheKey, Slot>::empty(),
    {
        Cache { entries: Vec::new(), model: Ghost(Map::empty()) }
    }

    fn find(&self, id: CacheId, key: &String) -> (r: Option<usize>)
        ensures
            match r {
                Some(i) => i < self.entries@.len() && key_of(self.entries@[i as int]) == (
                    id,
                    key@,
                ),
                None => forall|i: int|
                    0 <= i < self.entries@.len() ==> #[trigger] key_of(self.entries@[i]) != (
                        id,
                        key@,
                    ),
            },
    {
        let mut i: usize = 0;
        while i < self.entries.len()
            invariant
                i <= self.entries@.len(),
                forall|j: int| 0 <= j < i ==> #[trigger] key_of(self.entries@[j]) != (id, key@),
            decreases self.entries@.len() - i,
        {
            if self.entries[i].id == id && same_text(&self.entries[i].key, key) {
                return Some(i);
            }
            i = i + 1;
        }
        None
    }

    /// The value under a kind and key, if it is there and has not lapsed.
    pub fn get(&self, id: CacheId, key: &String, now: u64) -> (r: Option<CacheValue>)
        requires
            self.wf(),
        ensures
            value_opt(r) == lookup(self@, id, key@, now),
    {
        match self.find(id, key) {
            Some(i) => {
                assert(key_of(self.entries@[i as int]) == (id, key@));
                if is_live(self.entries[i].expires_at, now) {
                    Some(self.entries[i].value.clone())
                } else {
                    None
                }
            },
            None => None,
        }
    }

    /// Stores a value under a kind and key, in place of what was there, to
    /// lapse `ttl` seconds from `now`, or never.
    pub fn set(&mut self, id: CacheId, key: &String, value: CacheValue, ttl: Option<u64>, now: u64)
        requires
            old(self).wf(),
        ensures
            final(self).wf(),
            final(self)@ == stored(old(self)@, id, key@, value@, ttl, now),
    {
        let expires_at = deadline_of(now, ttl);
        self.put(id, key, value, expires_at);
    }

    fn put(&mut self, id: CacheId, key: &String, value: CacheValue, expires_at: Option<u64>)
        requires
            old(self).wf(),
        ensures
            final(self).wf(),
            final(self)@ == old(self)@.insert((id, key@), Slot { value: value@, expires_at }),
    {
        let ghost k = (id, key@);
        let ghost slot = Slot { value: value@, expires_at };
        let ghost before = self.entries@;
        let entry = Entry { id, key: key.clone(), value, expires_at };
        match self.find(id, key) {
            Some(i) => {
                self.entries.set(i, entry);
                self.model = Ghost(self.model@.insert(k, slot));
                proof {
                    let e = self.entries@;
                    assert(key_of(before[i as int]) == k);
                    assert forall|j: int| 0 <= j < e.len() implies key_of(e[j]) == key_of(
                        before[j],
                    ) by {}
                    assert forall|j: int| 0 <= j < e.len() implies self.model@.contains_key(
                        #[trigger] key_of(e[j]),
                    ) && self.model@[key_of(e[j])] == slot_of(e[j]) by {
                        if j != i {
                            assert(key_of(before[j]) != key_of(before[i as int]));
                        }
                    }
                    assert forall|q: CacheKey| #[trigger]
                        self.model@.contains_key(q) implies exists|j: int|
                        0 <= j < e.len() && #[trigger] key_of(e[j]) == q by {
                        if q == k {
                            assert(key_of(e[i as int]) == q);
                        } else {
                            let j = choose|j: int|
                                0 <= j < before.len() && #[trigger] key_of(before[j]) == q;
                            assert(key_of(e[j]) == q);
                        }
                    }
                }
            },
            None => {
                self.entries.push(entry);
                self.model = Ghost(self.model@.insert(k, slot));
                proof {
                    let e = self.entries@;
                    let n = before.len() as int;
                    assert(key_of(e[n]) == k);
                    assert forall|j: int| 0 <= j < n implies key_of(e[j]) == key_of(before[j]) by {}
                    assert forall|j: int| 0 <= j < e.len() implies self.model@.contains_key(
                        #[trigger] key_of(e[j]),
                    ) && self.model@[key_of(e[j])] == slot_of(e[j]) by {
                        if j < n {
                            assert(key_of(before[j]) != k);
                        }
                    }
                    assert forall|a: int, b: int| 0 <= a < b < e.len() implies #[trigger] key_of(
                        e[a],
                    ) != #[trigger] key_of(e[b]) by {
                        if b == n {
                            assert(key_of(before[a]) != k);
                        } else {
                            assert(key_of(before[a]) != key_of(before[b]));
                        }
                    }
                    assert forall|q: CacheKey| #[trigger]
                        self.model@.contains_key(q) implies exists|j: int|
                        0 <= j < e.len() && #[trigger] key_of(e[j]) == q by {
                        if q == k {
                            assert(key_of(e[n]) == q);
                        } else {
                            let j = choose|j: int|
                                0 <= j < before.len() && #[trigger] key_of(before[j]) == q;
                            assert(key_of(e[j]) == q);
                        }
                    }
                }
            },
        }
    }

    /// Removes what is under a kind and key; says whether anything was there.
    pub fn delete(&mut self, id: CacheId, key: &String) -> (r: bool)
        requires
            old(self).wf(),
        ensures
            final(self).wf(),
            final(self)@ == removed(old(self)@, id, key@),
            r == old(self)@.contains_key((id, key@)),
    {
        let ghost k = (id, key@);
        let ghost before = self.entries@;
        match self.find(id, key) {
            Some(i) => {
                assert(key_of(before[i as int]) == k);
                self.entries.remove(i);
                self.model = Ghost(self.model@.remove(k));
                proof {
                    let e = self.entries@;
                    assert forall|j: int| 0 <= j < e.len() implies key_of(e[j]) == key_of(
                        before[if j < i { j } else { j + 1 }],
                    ) by {}
                    assert forall|j: int| 0 <= j < e.len() implies self.model@.contains_key(
                        #[trigger] key_of(e[j]),
                    ) && self.model@[key_of(e[j])] == slot_of(e[j]) by {
                        let o = if j < i { j } else { j + 1 };
                        assert(e[j] == before[o]);
                        if o < i {
                            assert(key_of(before[o]) != key_of(before[i as int]));
                        } else {
                            assert(key_of(before[i as int]) != key_of(before[o]));
                        }
                    }
                    assert forall|a: int, b: int| 0 <= a < b < e.len() implies #[trigger] key_of(
                        e[a],
                    ) != #[trigger] key_of(e[b]) by {
                        let oa = if a < i { a } else { a + 1 };
                        let ob = if b < i { b } else { b + 1 };
                        assert(e[a] == before[oa]);
                        assert(e[b] == before[ob]);
                        assert(key_of(before[oa]) != key_of(before[ob]));
                    }
                    assert forall|q: CacheKey| #[trigger]
                        self.model@.contains_key(q) implies exists|j: int|
                        0 <= j < e.len() && #[trigger] key_of(e[j]) == q by {
                        let o = choose|o: int|
                            0 <= o < before.len() && #[trigger] key_of(before[o]) == q;
                        let j = if o < i { o } else { o - 1 };
                        assert(e[j] == before[o]);
                        assert(key_of(e[j]) == q);
                    }
                }
                true
            },
            None => {
                proof {
                    if self.model@.contains_key(k) {
                        let j = choose|j: int|
                            0 <= j < before.len() && #[trigger] key_of(before[j]) == k;
                        assert(false);
                    }
                    assert(self.model@.remove(k) =~= self.model@);
                }
                false
            },
        }
    }

    /// Reads and removes in one step: the value under a kind and key if it is
    /// there and has not lapsed; whatever was there is gone afterwards.
    pub fn take(&mut self, id: CacheId, key: &String, now: u64) -> (r: Option<CacheValue>)
        requires
            old(self).wf(),
        ensures
            final(self).wf(),
            final(self)@ == removed(old(self)@, id, key@),
            value_opt(r) == lookup(old(self)@, id, key@, now),
    {
        let found = self.get(id, key, now);
        self.delete(id, key);
        found
    }

    /// Counts once more under a kind and key and returns the new count. A
    /// counter that is running grows and keeps its deadline; otherwise it
    /// starts at one and lapses `window` seconds from `now`.
    pub fn increment(&mut self, id: CacheId, key: &String, window: u64, now: u64) -> (r: u64)
        requires
            old(self).wf(),
        ensures
            final(self).wf(),
            final(self)@ == bumped(old(self)@, id, key@, window, now),
            r == next_count(count_of(old(self)@, id, key@, now)),
    {
        let current = self.get(id, key, now);
        match current {
            Some(CacheValue::Number(n)) => {
                let next = if n < u64::MAX { n + 1 } else { n };
                let i = self.find(id, key);
                match i {
                    Some(i) => {
                        assert(key_of(self.entries@[i as int]) == (id, key@));
                        let expires_at = self.entries[i].expires_at;
                        self.put(id, key, CacheValue::Number(next), expires_at);
                    },
                    None => {
                        assert(false);
                    },
                }
                next
            },
            _ => {
                let expires_at = deadline_of(now, Some(window));
                self.put(id, key, CacheValue::Number(1), expires_at);
                1
            },
        }
    }
}

} // verus!
