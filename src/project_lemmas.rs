//! Properties of the loader that relate its results across inputs and calls.

use crate::ldtk::{LdtkJson, LevelIndices, TilesetDefinition};
use crate::level_map::LevelMetadataAccessor;
use crate::ldtk_project::{
    internal_index, levels_paths, some_level_without_path, tileset_paths,
    LdtkProjectLoader, LdtkProjectLoaderError, LoadedLdtkProject,
};
use vstd::prelude::*;

verus! {

/// The levels at `idxs` carry pairwise distinct identifiers.
pub open spec fn distinct_iids(doc: LdtkJson, idxs: Seq<LevelIndices>) -> bool {
    forall|i: int, j: int|
        0 <= i < idxs.len() && 0 <= j < idxs.len() && i != j ==> doc.spec_level_at(idxs[i]).iid@
            != doc.spec_level_at(idxs[j]).iid@
}

proof fn lemma_index_keys(dir: Seq<char>, doc: LdtkJson, idxs: Seq<LevelIndices>)
    requires
        distinct_iids(doc, idxs),
    ensures
        internal_index(dir, doc, idxs).dom().finite(),
        internal_index(dir, doc, idxs).dom().len() == idxs.len(),
        forall|k: Seq<char>| #[trigger]
            internal_index(dir, doc, idxs).contains_key(k) <==> exists|i: int|
                0 <= i < idxs.len() && doc.spec_level_at(idxs[i]).iid@ == k,
    decreases idxs.len(),
{
    if idxs.len() > 0 {
        let prev = idxs.drop_last();
        assert(distinct_iids(doc, prev)) by {
            assert forall|i: int, j: int| 0 <= i < prev.len() && 0 <= j < prev.len() && i != j
                implies doc.spec_level_at(prev[i]).iid@ != doc.spec_level_at(prev[j]).iid@ by {
                assert(prev[i] == idxs[i] && prev[j] == idxs[j]);
            }
        }
        lemma_index_keys(dir, doc, prev);
        let n = idxs.len() - 1;
        let key = doc.spec_level_at(idxs.last()).iid@;
        let m = internal_index(dir, doc, prev);
        assert(!m.contains_key(key)) by {
            if m.contains_key(key) {
                let i = choose|i: int| 0 <= i < prev.len() && doc.spec_level_at(prev[i]).iid@ == key;
                assert(prev[i] == idxs[i]);
                assert(idxs.last() == idxs[n]);
            }
        }
        assert forall|k: Seq<char>| #[trigger]
            internal_index(dir, doc, idxs).contains_key(k) <==> exists|i: int|
                0 <= i < idxs.len() && doc.spec_level_at(idxs[i]).iid@ == k by {
            if internal_index(dir, doc, idxs).contains_key(k) && k != key {
                let i = choose|i: int| 0 <= i < prev.len() && doc.spec_level_at(prev[i]).iid@ == k;
                assert(prev[i] == idxs[i]);
            }
            if exists|i: int| 0 <= i < idxs.len() && doc.spec_level_at(idxs[i]).iid@ == k {
                let i = choose|i: int| 0 <= i < idxs.len() && doc.spec_level_at(idxs[i]).iid@ == k;
                if i < n {
                    assert(prev[i] == idxs[i]);
                }
            }
        }
    } else {
        assert(internal_index(dir, doc, idxs).dom() =~= Set::empty());
    }
}

/// For a document whose levels are stored in the project file and carry
/// distinct identifiers, the level index has exactly one entry per level of the
/// document, and every key of it is the identifier of a level of the document.
pub proof fn lemma_index_has_one_entry_per_level(dir: Seq<char>, doc: LdtkJson)
    requires
        !doc.external_levels,
        distinct_iids(doc, doc.spec_raw_level_indices()),
    ensures
        internal_index(dir, doc, doc.spec_raw_level_indices()).len()
            == doc.spec_raw_level_indices().len(),
        forall|k: Seq<char>| #[trigger]
            internal_index(dir, doc, doc.spec_raw_level_indices()).contains_key(k) ==> exists|i: int|
                0 <= i < doc.spec_raw_level_indices().len() && doc.spec_level_at(
                    doc.spec_raw_level_indices()[i],
                ).iid@ == k,
{
    lemma_index_keys(dir, doc, doc.spec_raw_level_indices());
}

proof fn lemma_tileset_paths_nonempty(dir: Seq<char>, ts: Seq<TilesetDefinition>)
    ensures
        tileset_paths(dir, ts).len() > 0 <==> exists|i: int| 0 <= i < ts.len() && ts[i].rel_path is Some,
    decreases ts.len(),
{
    if ts.len() > 0 {
        let prev = ts.drop_last();
        lemma_tileset_paths_nonempty(dir, prev);
        if exists|i: int| 0 <= i < prev.len() && prev[i].rel_path is Some {
            let i = choose|i: int| 0 <= i < prev.len() && prev[i].rel_path is Some;
            assert(ts[i] == prev[i]);
        }
        if exists|i: int| 0 <= i < ts.len() && ts[i].rel_path is Some {
            let i = choose|i: int| 0 <= i < ts.len() && ts[i].rel_path is Some;
            if i < ts.len() - 1 {
                assert(ts[i] == prev[i]);
            }
        }
    }
}

proof fn lemma_levels_paths_nonempty(dir: Seq<char>, doc: LdtkJson, idxs: Seq<LevelIndices>, external: bool)
    ensures
        levels_paths(dir, doc, idxs, external).len() > 0 <==> exists|i: int|
            0 <= i < idxs.len() && (doc.spec_level_at(idxs[i]).bg_rel_path is Some || external),
    decreases idxs.len(),
{
    if idxs.len() > 0 {
        let prev = idxs.drop_last();
        lemma_levels_paths_nonempty(dir, doc, prev, external);
        if exists|i: int| 0 <= i < prev.len() && (doc.spec_level_at(prev[i]).bg_rel_path is Some || external) {
            let i = choose|i: int| 0 <= i < prev.len() && (doc.spec_level_at(prev[i]).bg_rel_path is Some || external);
            assert(idxs[i] == prev[i]);
        }
        if exists|i: int| 0 <= i < idxs.len() && (doc.spec_level_at(idxs[i]).bg_rel_path is Some || external) {
            let i = choose|i: int| 0 <= i < idxs.len() && (doc.spec_level_at(idxs[i]).bg_rel_path is Some || external);
            if i < idxs.len() - 1 {
                assert(idxs[i] == prev[i]);
            } else {
                assert(idxs[i] == idxs.last());
            }
        }
    }
}

/// The dependency list of a load is non-empty exactly when some tileset has an
/// image path, some level has a background image, or the levels are stored in
/// files of their own and some level has a file path. Where levels are stored
/// in files of their own, a successful load has a file path for every level.
pub proof fn lemma_dependencies_nonempty(dir: Seq<char>, doc: LdtkJson)
    requires
        doc.external_levels ==> !some_level_without_path(doc, doc.spec_raw_level_indices()),
    ensures
        ({
            let idxs = doc.spec_raw_level_indices();
            let ts = doc.defs.tilesets@;
            (tileset_paths(dir, ts) + levels_paths(dir, doc, idxs, doc.external_levels)).len() > 0
                <==> (exists|i: int| 0 <= i < ts.len() && ts[i].rel_path is Some) || (exists|i: int|
                0 <= i < idxs.len() && doc.spec_level_at(idxs[i]).bg_rel_path is Some) || (
            doc.external_levels && exists|i: int|
                0 <= i < idxs.len() && doc.spec_level_at(idxs[i]).external_rel_path is Some)
        }),
{
    let idxs = doc.spec_raw_level_indices();
    lemma_tileset_paths_nonempty(dir, doc.defs.tilesets@);
    lemma_levels_paths_nonempty(dir, doc, idxs, doc.external_levels);
    if doc.external_levels && exists|i: int| 0 <= i < idxs.len() && (doc.spec_level_at(idxs[i]).bg_rel_path is Some || doc.external_levels) {
        let i = choose|i: int| 0 <= i < idxs.len() && (doc.spec_level_at(idxs[i]).bg_rel_path is Some || doc.external_levels);
        assert(doc.spec_level_at(idxs[i]).external_rel_path is Some);
    }
}

/// Two loads of the same document from the same path, by the same loader, both
/// succeed or fail alike; when they succeed the two projects have the same
/// level index, the same tileset map and the same dependency list.
pub proof fn lemma_load_deterministic(
    loader: LdtkProjectLoader,
    data: LdtkJson,
    project_path: Seq<char>,
    r1: Result<LoadedLdtkProject, LdtkProjectLoaderError>,
    r2: Result<LoadedLdtkProject, LdtkProjectLoaderError>,
)
    requires
        loader.load_outcome(data, project_path, r1),
        loader.load_outcome(data, project_path, r2),
    ensures
        r1 is Ok <==> r2 is Ok,
        r1 is Err ==> r1 == r2,
        r1 is Ok ==> {
            let (l1, l2) = (r1->Ok_0, r2->Ok_0);
            &&& l1.project.data.level_index() == l2.project.data.level_index()
            &&& l1.project.tileset_view() == l2.project.tileset_view()
            &&& l1.project.data.spec_json_data() == l2.project.data.spec_json_data()
            &&& l1.dependencies@.map_values(|s: String| s@) == l2.dependencies@.map_values(|s: String| s@)
        },
{
}

} // verus!
