use vstd::prelude::*;

use crate::types::{duplicate_meta, meta_view, same_id, AccountId, AssetId, AssetItem, AssetRecord};

verus! {

/// Asset records by identifier, at most one per identifier.
pub struct AssetsStore {
    entries: Vec<(AssetId, AssetItem)>,
    contents: Ghost<Map<Seq<u8>, AssetRecord>>,
}

impl View for AssetsStore {
    type V = Map<Seq<u8>, AssetRecord>;

    closed spec fn view(&self) -> Self::V {
        self.contents@
    }
}

impl AssetsStore {
    /// The entries hold exactly the map, each key once.
    pub closed spec fn wf(&self) -> bool {
        &&& forall|i: int|
            0 <= i < self.entries.len() ==> {
                &&& self.contents@.contains_key(#[trigger] self.entries@[i].0@)
                &&& self.contents@[self.entries@[i].0@] == self.entries@[i].1@
            }
        &&& forall|k: Seq<u8>|
            #[trigger] self.contents@.contains_key(k) ==> exists|i: int|
                0 <= i < self.entries.len() && #[trigger] self.entries@[i].0@ == k
        &&& forall|i: int, j: int|
            0 <= i < j < self.entries.len() ==> self.entries@[i].0@ != self.entries@[j].0@
    }

    pub fn new() -> (r: AssetsStore)
        ensures
            r.wf(),
            r@ == Map::<Seq<u8>, AssetRecord>::empty(),
    {
        AssetsStore { entries: Vec::new(), contents: Ghost(Map::empty()) }
    }

    fn position(&self, id: &AssetId) -> (r: Option<usize>)
        requires
            self.wf(),
        ensures
            match r {
                Some(i) => i < self.entries.len() && self.entries@[i as int].0@ == id@,
                None => !self@.contains_key(id@),
            },
    {
        let mut i: usize = 0;
        while i < self.entries.len()
            invariant
                self.wf(),
                i <= self.entries.len(),
                forall|j: int| 0 <= j < i ==> self.entries@[j].0@ != id@,
            decreases self.entries.len() - i,
        {
            if same_id(&self.entries[i].0, id) {
                return Some(i);
            }
            i += 1;
        }
        None
    }

    /// The record stored under `id`, if any.
    pub fn get(&self, id: &AssetId) -> (r: Option<&AssetItem>)
        requires
            self.wf(),
        ensures
            match r {
                Some(item) => self@.contains_key(id@) && self@[id@] == item@,
                None => !self@.contains_key(id@),
            },
    {
        match self.position(id) {
            Some(i) => Some(&self.entries[i].1),
            None => None,
        }
    }

    /// Stores `item` under `id`, replacing what was there.
    pub fn insert(&mut self, id: AssetId, item: AssetItem)
        requires
            old(self).wf(),
        ensures
            final(self).wf(),
            final(self)@ == old(self)@.insert(id@, item@),
    {
        let ghost key = id@;
        let ghost value = item@;
        let pos = self.position(&id);
        self.contents = Ghost(self.contents@.insert(key, value));
        match pos {
            Some(i) => {
                self.entries.set(i, (id, item));
            },
            None => {
                self.entries.push((id, item));
            },
        }
        assert forall|k: Seq<u8>| #[trigger] self.contents@.contains_key(k) implies exists|i: int|
            0 <= i < self.entries.len() && #[trigger] self.entries@[i].0@ == k by {
            if k == key {
                let w = if pos is Some { pos->Some_0 as int } else { self.entries.len() - 1 };
                assert(self.entries@[w].0@ == k);
            } else {
                assert(old(self)@.contains_key(k));
                let w = choose|i: int| 0 <= i < old(self).entries.len() && #[trigger] old(self).entries@[i].0@ == k;
                assert(self.entries@[w].0@ == k);
            }
        }
    }
}

/// Metadata slots by identifier and account, at most one per pair. A slot may
/// hold a blob or be present and empty.
pub struct MetadataStore {
    entries: Vec<(AssetId, AccountId, Option<Vec<u8>>)>,
    contents: Ghost<Map<(Seq<u8>, AccountId), Option<Seq<u8>>>>,
}

impl View for MetadataStore {
    type V = Map<(Seq<u8>, AccountId), Option<Seq<u8>>>;

    closed spec fn view(&self) -> Self::V {
        self.contents@
    }
}

impl MetadataStore {
    pub open spec fn key_at(e: (AssetId, AccountId, Option<Vec<u8>>)) -> (Seq<u8>, AccountId) {
        (e.0@, e.1)
    }

    /// The entries hold exactly the map, each key once.
    pub closed spec fn wf(&self) -> bool {
        &&& forall|i: int|
            0 <= i < self.entries.len() ==> {
                &&& self.contents@.contains_key(#[trigger] Self::key_at(self.entries@[i]))
                &&& self.contents@[Self::key_at(self.entries@[i])] == meta_view(self.entries@[i].2)
            }
        &&& forall|k: (Seq<u8>, AccountId)|
            #[trigger] self.contents@.contains_key(k) ==> exists|i: int|
                0 <= i < self.entries.len() && #[trigger] Self::key_at(self.entries@[i]) == k
        &&& forall|i: int, j: int|
            0 <= i < j < self.entries.len() ==> Self::key_at(self.entries@[i]) != Self::key_at(
                self.entries@[j],
            )
    }

    pub fn new() -> (r: MetadataStore)
        ensures
            r.wf(),
            r@ == Map::<(Seq<u8>, AccountId), Option<Seq<u8>>>::empty(),
    {
        MetadataStore { entries: Vec::new(), contents: Ghost(Map::empty()) }
    }

    fn position(&self, id: &AssetId, who: AccountId) -> (r: Option<usize>)
        requires
            self.wf(),
        ensures
            match r {
                Some(i) => i < self.entries.len() && Self::key_at(self.entries@[i as int]) == (
                id@,
                who,
                ),
                None => !self@.contains_key((id@, who)),
            },
    {
        let mut i: usize = 0;
        while i < self.entries.len()
            invariant
                self.wf(),
                i <= self.entries.len(),
                forall|j: int| 0 <= j < i ==> Self::key_at(self.entries@[j]) != (id@, who),
            decreases self.entries.len() - i,
        {
            if self.entries[i].1 == who && same_id(&self.entries[i].0, id) {
                return Some(i);
            }
            i += 1;
        }
        None
    }

    /// Whether the slot `(id, who)` exists, empty or not.
    pub fn contains_key(&self, id: &AssetId, who: AccountId) -> (r: bool)
        requires
            self.wf(),
        ensures
            r == self@.contains_key((id@, who)),
    {
        self.position(id, who).is_some()
    }

    /// The slot `(id, who)`: `None` where it does not exist.
    pub fn get(&self, id: &AssetId, who: AccountId) -> (r: Option<Option<Vec<u8>>>)
        requires
            self.wf(),
        ensures
            match r {
                Some(m) => self@.contains_key((id@, who)) && self@[(id@, who)] == meta_view(m),
                None => !self@.contains_key((id@, who)),
            },
    {
        match self.position(id, who) {
            Some(i) => Some(duplicate_meta(&self.entries[i].2)),
            None => None,
        }
    }

    /// Sets the slot `(id, who)` to `meta`, creating it where it did not exist.
    pub fn insert(&mut self, id: AssetId, who: AccountId, meta: Option<Vec<u8>>)
        requires
            old(self).wf(),
        ensures
            final(self).wf(),
            final(self)@ == old(self)@.insert((id@, who), meta_view(meta)),
    {
        let ghost key = (id@, who);
        let ghost value = meta_view(meta);
        let pos = self.position(&id, who);
        self.contents = Ghost(self.contents@.insert(key, value));
        match pos {
            Some(i) => {
                self.entries.set(i, (id, who, meta));
            },
            None => {
                self.entries.push((id, who, meta));
            },
        }
        assert forall|k: (Seq<u8>, AccountId)| #[trigger] self.contents@.contains_key(k) implies exists|i: int|
            0 <= i < self.entries.len() && #[trigger] Self::key_at(self.entries@[i]) == k by {
            if k == key {
                let w = if pos is Some { pos->Some_0 as int } else { self.entries.len() - 1 };
                assert(Self::key_at(self.entries@[w]) == k);
            } else {
                assert(old(self)@.contains_key(k));
                let w = choose|i: int| 0 <= i < old(self).entries.len() && #[trigger] Self::key_at(old(self).entries@[i]) == k;
                assert(Self::key_at(self.entries@[w]) == k);
            }
        }
    }
}

} // verus!
