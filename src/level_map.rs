//! Per-level metadata and the index from level identifier to metadata.

use crate::ldtk::LevelIndices;
use vstd::prelude::*;

verus! {

/// What the loader derives for one level: its background image and its place.
#[derive(Clone, Debug, PartialEq)]
pub struct LevelMetadata {
    /// Asset path of the level's background image.
    pub bg_image: Option<String>,
    pub level_indices: LevelIndices,
}

pub struct LevelMetadataView {
    pub bg_image: Option<Seq<char>>,
    pub level_indices: LevelIndices,
}

pub open spec fn opt_view(s: Option<String>) -> Option<Seq<char>> {
    match s {
        Some(p) => Some(p@),
        None => None,
    }
}

impl View for LevelMetadata {
    type V = LevelMetadataView;

    open spec fn view(&self) -> LevelMetadataView {
        LevelMetadataView { bg_image: opt_view(self.bg_image), level_indices: self.level_indices }
    }
}

impl LevelMetadata {
    pub fn new(bg_image: Option<String>, level_indices: LevelIndices) -> (r: Self)
        ensures
            r.bg_image == bg_image,
            r.level_indices == level_indices,
    {
        LevelMetadata { bg_image, level_indices }
    }

    pub fn bg_image(&self) -> (r: &Option<String>)
        ensures
            *r == self.bg_image,
    {
        &self.bg_image
    }

    pub fn level_indices(&self) -> (r: LevelIndices)
        ensures
            r == self.level_indices,
    {
        self.level_indices
    }
}

/// Level metadata of a project whose levels are stored in files of their own:
/// also the asset path of the level's file.
#[derive(Clone, Debug, PartialEq)]
pub struct ExternalLevelMetadata {
    pub metadata: LevelMetadata,
    pub external_handle: String,
}

pub struct ExternalLevelMetadataView {
    pub metadata: LevelMetadataView,
    pub external_handle: Seq<char>,
}

impl View for ExternalLevelMetadata {
    type V = ExternalLevelMetadataView;

    open spec fn view(&self) -> ExternalLevelMetadataView {
        ExternalLevelMetadataView { metadata: self.metadata@, external_handle: self.external_handle@ }
    }
}

impl ExternalLevelMetadata {
    pub fn new(metadata: LevelMetadata, external_handle: String) -> (r: Self)
        ensures
            r.metadata == metadata,
            r.external_handle == external_handle,
    {
        ExternalLevelMetadata { metadata, external_handle }
    }

    pub fn metadata(&self) -> (r: &LevelMetadata)
        ensures
            *r == self.metadata,
    {
        &self.metadata
    }

    pub fn external_handle(&self) -> (r: &String)
        ensures
            *r == self.external_handle,
    {
        &self.external_handle
    }
}

/// Lookup of level metadata by level identifier, whatever holds the index.
pub trait LevelMetadataAccessor {
    /// The index, from level identifier to metadata.
    spec fn level_index(&self) -> Map<Seq<char>, LevelMetadataView>;

    /// The index is well formed.
    spec fn index_wf(&self) -> bool;

    /// The metadata of the level `iid`.
    fn get_level_metadata_by_iid(&self, iid: &String) -> (r: Option<&LevelMetadata>)
        requires
            self.index_wf(),
        ensures
            match r {
                Some(v) => self.level_index().contains_key(iid@) && v@ == self.level_index()[iid@],
                None => !self.level_index().contains_key(iid@),
            },
    ;
}

/// A map from level identifier to metadata: the keys in order of first insertion,
/// each key once, with the value at the same position.
#[derive(Clone, Debug, PartialEq)]
pub struct LevelMap<L> {
    pub keys: Vec<String>,
    pub values: Vec<L>,
}

impl<L: View> LevelMap<L> {
    pub open spec fn wf(&self) -> bool {
        &&& self.keys@.len() == self.values@.len()
        &&& forall|i: int, j: int|
            0 <= i < self.keys@.len() && 0 <= j < self.keys@.len() && i != j
                ==> self.keys@[i]@ != self.keys@[j]@
    }

    pub open spec fn has_key_at(&self, k: Seq<char>, i: int) -> bool {
        0 <= i < self.keys@.len() && self.keys@[i]@ == k
    }

    pub open spec fn view(&self) -> Map<Seq<char>, L::V> {
        Map::new(
            |k: Seq<char>| exists|i: int| self.has_key_at(k, i),
            |k: Seq<char>| self.values@[choose|i: int| self.has_key_at(k, i)]@,
        )
    }

    proof fn lemma_view_at(&self, i: int)
        requires
            self.wf(),
            0 <= i < self.keys@.len(),
        ensures
            self.view().contains_key(self.keys@[i]@),
            self.view()[self.keys@[i]@] == self.values@[i]@,
    {
        let k = self.keys@[i]@;
        assert(self.has_key_at(k, i));
        let j = choose|j: int| self.has_key_at(k, j);
        assert(j == i);
    }

    pub fn new() -> (r: Self)
        ensures
            r.wf(),
            r.view() == Map::<Seq<char>, L::V>::empty(),
    {
        let r = LevelMap { keys: Vec::new(), values: Vec::new() };
        assert(r.view() =~= Map::<Seq<char>, L::V>::empty());
        r
    }

    /// The number of levels in the map.
    pub fn len(&self) -> (r: usize)
        requires
            self.wf(),
        ensures
            r == self.view().len(),
    {
        proof { self.lemma_len(); }
        self.keys.len()
    }

    proof fn lemma_len(&self)
        requires
            self.wf(),
        ensures
            self.view().dom().finite(),
            self.view().len() == self.keys@.len(),
    {
        let ks = self.keys@.map_values(|s: String| s@);
        assert forall|i: int, j: int| 0 <= i < ks.len() && 0 <= j < ks.len() && i != j implies ks[i] != ks[j] by {}
        assert(ks.no_duplicates());
        ks.unique_seq_to_set();
        assert(self.view().dom() =~= ks.to_set()) by {
            assert forall|k: Seq<char>| self.view().dom().contains(k) implies ks.to_set().contains(k) by {
                let i = choose|i: int| self.has_key_at(k, i);
                assert(ks[i] == k);
            }
            assert forall|k: Seq<char>| ks.to_set().contains(k) implies self.view().dom().contains(k) by {
                let i = choose|i: int| 0 <= i < ks.len() && ks[i] == k;
                assert(self.has_key_at(k, i));
            }
        }
    }

    /// The position of `iid` among the keys.
    fn position(&self, iid: &String) -> (r: Option<usize>)
        requires
            self.wf(),
        ensures
            match r {
                Some(i) => i < self.keys@.len() && self.keys@[i as int]@ == iid@,
                None => forall|j: int| 0 <= j < self.keys@.len() ==> self.keys@[j]@ != iid@,
            },
    {
        let mut i: usize = 0;
        while i < self.keys.len()
            invariant
                i <= self.keys@.len(),
                forall|j: int| 0 <= j < i ==> self.keys@[j]@ != iid@,
            decreases self.keys@.len() - i,
        {
            if self.keys[i].eq(iid) {
                return Some(i);
            }
            i += 1;
        }
        None
    }

    /// The metadata of the level `iid`.
    pub fn get(&self, iid: &String) -> (r: Option<&L>)
        requires
            self.wf(),
        ensures
            match r {
                Some(v) => self.view().contains_key(iid@) && v@ == self.view()[iid@],
                None => !self.view().contains_key(iid@),
            },
    {
        let mut i: usize = 0;
        while i < self.keys.len()
            invariant
                self.wf(),
                i <= self.keys@.len(),
                forall|j: int| 0 <= j < i ==> self.keys@[j]@ != iid@,
            decreases self.keys@.len() - i,
        {
            if self.keys[i].eq(iid) {
                proof { self.lemma_view_at(i as int); }
                return Some(&self.values[i]);
            }
            i += 1;
        }
        None
    }

    /// Sets the metadata of the level `iid`, replacing what it had.
    pub fn insert(&mut self, iid: String, value: L)
        requires
            old(self).wf(),
        ensures
            final(self).wf(),
            final(self).view() == old(self).view().insert(iid@, value@),
    {
        let ghost k = iid@;
        let ghost v = value@;
        match self.position(&iid) {
            Some(i) => {
                let ghost pre = *self;
                self.values[i] = value;
                proof {
                    assert(self.keys@ == pre.keys@);
                    assert(self.wf());
                    assert forall|k2: Seq<char>| #[trigger] self.view().contains_key(k2) == pre.view().insert(k, v).contains_key(k2) by {
                        if k2 == k {
                            assert(self.has_key_at(k2, i as int));
                        } else if self.view().contains_key(k2) {
                            let j = choose|j: int| self.has_key_at(k2, j);
                            assert(pre.has_key_at(k2, j));
                        } else if pre.view().contains_key(k2) {
                            let j = choose|j: int| pre.has_key_at(k2, j);
                            assert(self.has_key_at(k2, j));
                        }
                    }
                    assert forall|k2: Seq<char>| self.view().contains_key(k2) implies #[trigger] self.view()[k2] == pre.view().insert(k, v)[k2] by {
                        if k2 == k {
                            self.lemma_view_at(i as int);
                        } else {
                            let j = choose|j: int| self.has_key_at(k2, j);
                            assert(j != i);
                            self.lemma_view_at(j);
                            pre.lemma_view_at(j);
                        }
                    }
                    assert(self.view() =~= pre.view().insert(k, v));
                }
                return;
            },
            None => {},
        }
        let ghost pre = *self;
        self.keys.push(iid);
        self.values.push(value);
        proof {
            assert(self.wf());
            let n = pre.keys@.len() as int;
            assert forall|k2: Seq<char>| #[trigger] self.view().contains_key(k2) == pre.view().insert(k, v).contains_key(k2) by {
                if k2 == k {
                    assert(self.has_key_at(k2, n));
                } else if self.view().contains_key(k2) {
                    let j = choose|j: int| self.has_key_at(k2, j);
                    assert(pre.has_key_at(k2, j));
                } else if pre.view().contains_key(k2) {
                    let j = choose|j: int| pre.has_key_at(k2, j);
                    assert(self.has_key_at(k2, j));
                }
            }
            assert forall|k2: Seq<char>| self.view().contains_key(k2) implies #[trigger] self.view()[k2] == pre.view().insert(k, v)[k2] by {
                if k2 == k {
                    self.lemma_view_at(n);
                } else {
                    let j = choose|j: int| self.has_key_at(k2, j);
                    self.lemma_view_at(j);
                    pre.lemma_view_at(j);
                }
            }
            assert(self.view() =~= pre.view().insert(k, v));
        }
    }
}

} // verus!
