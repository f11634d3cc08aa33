//! The `content` entity and the key-value store operations on it.
//!
//! A content record is looked up by `key`; the stored value holds only
//! `title` and `body`, and the key is reconstructed from the lookup
//! parameter on read. The store is modelled as the history of writes; its
//! view is the map from each key to the value it last received, so an
//! overwrite replaces the previous value entirely.

use vstd::prelude::*;

use crate::errors::RepoError;
use crate::text::str_eq;

verus! {

/// The mathematical value of a content record.
pub ghost struct ContentV {
    pub key: Seq<char>,
    pub title: Seq<char>,
    pub body: Seq<char>,
}

/// A content record as callers see it, key included.
#[derive(Clone, Debug, PartialEq, Eq)]
pub struct Content {
    pub key: String,
    pub title: String,
    pub body: String,
}

impl View for Content {
    type V = ContentV;

    open spec fn view(&self) -> ContentV {
        ContentV { key: self.key@, title: self.title@, body: self.body@ }
    }
}

impl Default for Content {
    /// A record with every field empty.
    fn default() -> (r: Self)
        ensures
            r@.key == Seq::<char>::empty(),
            r@.title == Seq::<char>::empty(),
            r@.body == Seq::<char>::empty(),
    {
        Content { key: String::new(), title: String::new(), body: String::new() }
    }
}

/// The mathematical value of a stored content row: what the store holds
/// under a key, which is the record without the key itself.
pub ghost struct ContentRowV {
    pub title: Seq<char>,
    pub body: Seq<char>,
}

/// The shape a content record is stored in: `title` and `body` only.
#[derive(Clone, Debug, PartialEq, Eq)]
pub struct ContentRow {
    pub title: String,
    pub body: String,
}

impl View for ContentRow {
    type V = ContentRowV;

    open spec fn view(&self) -> ContentRowV {
        ContentRowV { title: self.title@, body: self.body@ }
    }
}

impl From<Content> for ContentRow {
    /// Drops the key, keeping the stored fields.
    fn from(content: Content) -> (r: ContentRow) {
        ContentRow { title: content.title, body: content.body }
    }
}

impl vstd::std_specs::convert::FromSpecImpl<Content> for ContentRow {
    open spec fn obeys_from_spec() -> bool {
        true
    }

    open spec fn from_spec(content: Content) -> Self {
        ContentRow { title: content.title, body: content.body }
    }
}

/// The stored row a content record writes.
pub open spec fn row_of(c: ContentV) -> ContentRowV {
    ContentRowV { title: c.title, body: c.body }
}

/// The record a read reconstructs from the lookup key and the stored row.
pub open spec fn content_of(key: Seq<char>, row: ContentRowV) -> ContentV {
    ContentV { key, title: row.title, body: row.body }
}

/// The map a history of writes denotes: each key holds the row it last
/// received.
pub open spec fn entries_map(s: Seq<(String, ContentRow)>) -> Map<Seq<char>, ContentRowV>
    decreases s.len(),
{
    if s.len() == 0 {
        Map::empty()
    } else {
        entries_map(s.drop_last()).insert(s.last().0@, s.last().1@)
    }
}

/// The state of the key-value store: the writes it has received, in order.
pub struct ContentStore {
    entries: Vec<(String, ContentRow)>,
}

impl View for ContentStore {
    type V = Map<Seq<char>, ContentRowV>;

    closed spec fn view(&self) -> Map<Seq<char>, ContentRowV> {
        entries_map(self.entries@)
    }
}

impl ContentStore {
    /// An empty store.
    pub fn new() -> (t: Self)
        ensures
            t@ == Map::<Seq<char>, ContentRowV>::empty(),
    {
        ContentStore { entries: Vec::new() }
    }
}

/// Skipping a suffix of writes none of which touches `k` does not change
/// what the store holds under `k`.
proof fn lemma_entries_map_skip(s: Seq<(String, ContentRow)>, i: int, k: Seq<char>)
    requires
        0 <= i <= s.len(),
        forall|j: int| i <= j < s.len() ==> (#[trigger] s[j]).0@ != k,
    ensures
        entries_map(s).contains_key(k) == entries_map(s.take(i)).contains_key(k),
        entries_map(s).contains_key(k) ==> entries_map(s)[k] == entries_map(s.take(i))[k],
    decreases s.len() - i,
{
    if i == s.len() {
        assert(s.take(i) =~= s);
    } else {
        let s1 = s.drop_last();
        assert(s1 =~= s.take(s.len() - 1));
        lemma_entries_map_skip(s1, i, k);
        assert(s1.take(i) =~= s.take(i));
    }
}

impl Content {
    /// Reads the record stored under `key`, reconstructing the key into the
    /// result. Fails with `NotFound` exactly when the store holds no value
    /// for `key`.
    pub fn get(store: &ContentStore, key: &str) -> (r: Result<Content, RepoError>)
        ensures
            match r {
                Ok(c) => store@.contains_key(key@) && c@ == content_of(key@, store@[key@]),
                Err(e) => e == RepoError::NotFound && !store@.contains_key(key@),
            },
    {
        let n = store.entries.len();
        let mut i: usize = n;
        while i > 0
            invariant
                i <= n,
                n == store.entries.len(),
                forall|j: int| i <= j < n ==> (#[trigger] store.entries@[j]).0@ != key@,
            decreases i,
        {
            let idx = i - 1;
            if str_eq(store.entries[idx].0.as_str(), key) {
                let c = Content {
                    key: String::from_str(key),
                    title: store.entries[idx].1.title.clone(),
                    body: store.entries[idx].1.body.clone(),
                };
                proof {
                    lemma_entries_map_skip(store.entries@, idx + 1, key@);
                    let prefix = store.entries@.take(idx + 1);
                    assert(prefix.last() == store.entries@[idx as int]);
                    assert(prefix.drop_last() =~= store.entries@.take(idx as int));
                }
                return Ok(c);
            }
            i = idx;
        }
        proof {
            lemma_entries_map_skip(store.entries@, 0, key@);
            assert(store.entries@.take(0) =~= Seq::<(String, ContentRow)>::empty());
        }
        Err(RepoError::NotFound)
    }

    /// Writes this record under its own key: an unconditional overwrite,
    /// with no concurrency check and no expiry. Only `title` and `body` are
    /// stored; the key serves as the lookup parameter.
    pub fn set(&self, store: &mut ContentStore) -> (r: Result<(), RepoError>)
        ensures
            r is Ok,
            final(store)@ == old(store)@.insert(self.key@, row_of(self@)),
    {
        let copy = Content {
            key: self.key.clone(),
            title: self.title.clone(),
            body: self.body.clone(),
        };
        let row: ContentRow = ContentRow::from(copy);
        store.entries.push((self.key.clone(), row));
        proof {
            assert(store.entries@.drop_last() =~= old(store).entries@);
        }
        Ok(())
    }
}

/// Round trip: writing a content record and then reading its key yields a
/// record equal to the one written, the reconstructed key included.
pub proof fn lemma_set_then_get_round_trip(m: Map<Seq<char>, ContentRowV>, c: ContentV)
    ensures
        ({
            let m1 = m.insert(c.key, row_of(c));
            &&& m1.contains_key(c.key)
            &&& content_of(c.key, m1[c.key]) == c
        }),
{
}

/// A key that was never written is absent from the store's map, so a read
/// of it fails with `NotFound`.
pub proof fn lemma_fresh_store_has_no_keys(k: Seq<char>)
    ensures
        !Map::<Seq<char>, ContentRowV>::empty().contains_key(k),
{
}

} // verus!
