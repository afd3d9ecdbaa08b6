//! The loaded project asset and the loader that builds it from a raw document.

use crate::asset_path::{parent_of, path_join, path_parent, resolved};
use crate::ldtk::{LdtkJson, Level, LevelIndices, RawLevelAccessor, TilesetDefinition, World};
use crate::level_map::{
    opt_view, ExternalLevelMetadata, ExternalLevelMetadataView, LevelMap, LevelMetadata,
    LevelMetadataAccessor, LevelMetadataView,
};
use std::collections::HashMap;
use vstd::prelude::*;

verus! {

broadcast use vstd::std_specs::hash::group_hash_axioms;

/// Why a project could not be loaded.
#[derive(Clone, Copy, Debug, PartialEq, Eq)]
pub enum LdtkProjectLoaderError {
    /// The project stores its levels inside the project file, and the loader
    /// was configured without support for that.
    InternalLevelsDisabled,
    /// The project stores its levels in files of their own, and the loader was
    /// configured without support for that.
    ExternalLevelsDisabled,
    /// The project stores its levels inside the project file, but some level has
    /// no layer data.
    InternalLevelWithNullLayers,
    /// The project stores its levels in files of their own, but some level has
    /// no file path.
    ExternalLevelWithNullPath,
    /// The project file's path has no directory to read relative paths against.
    ProjectPathWithoutDirectory,
}

impl LdtkProjectLoaderError {
    /// A sentence that describes the error.
    pub fn message(&self) -> String {
        match self {
            LdtkProjectLoaderError::InternalLevelsDisabled => String::from_str(
                "LDtk project uses internal levels, but the internal_levels feature is disabled",
            ),
            LdtkProjectLoaderError::ExternalLevelsDisabled => String::from_str(
                "LDtk project uses external levels, but the external_levels feature is disabled",
            ),
            LdtkProjectLoaderError::InternalLevelWithNullLayers => String::from_str(
                "LDtk project uses internal levels, but some level's layer_instances is null",
            ),
            LdtkProjectLoaderError::ExternalLevelWithNullPath => String::from_str(
                "LDtk project uses external levels, but some level's external_rel_path is null",
            ),
            LdtkProjectLoaderError::ProjectPathWithoutDirectory => String::from_str(
                "LDtk project path has no parent directory",
            ),
        }
    }
}

/// A tileset that the loader leaves out of the tileset map.
#[derive(Clone, Debug, PartialEq)]
pub enum LoadWarning {
    /// The tileset is one of LDtk's built-in icon atlases, whose license does not
    /// allow them to be displayed.
    InternalIcons { uid: i32 },
    /// The tileset has no image path.
    NullTilesetPath { identifier: String },
}

pub enum LoadWarningView {
    InternalIcons { uid: i32 },
    NullTilesetPath { identifier: Seq<char> },
}

impl View for LoadWarning {
    type V = LoadWarningView;

    open spec fn view(&self) -> LoadWarningView {
        match self {
            LoadWarning::InternalIcons { uid } => LoadWarningView::InternalIcons { uid: *uid },
            LoadWarning::NullTilesetPath { identifier } => LoadWarningView::NullTilesetPath {
                identifier: identifier@,
            },
        }
    }
}

pub open spec fn paths_view(v: Seq<String>) -> Seq<Seq<char>> {
    v.map_values(|s: String| s@)
}

pub open spec fn warnings_view(v: Seq<LoadWarning>) -> Seq<LoadWarningView> {
    v.map_values(|w: LoadWarning| w@)
}

/// The asset paths of the tileset images, in order.
pub open spec fn tileset_paths(dir: Seq<char>, ts: Seq<TilesetDefinition>) -> Seq<Seq<char>>
    decreases ts.len(),
{
    if ts.len() == 0 {
        Seq::empty()
    } else {
        let prev = tileset_paths(dir, ts.drop_last());
        match ts.last().rel_path {
            Some(p) => prev.push(resolved(dir, p@)),
            None => prev,
        }
    }
}

/// The tileset map: each tileset with an image path, by uid, to that image's
/// asset path; a later tileset replaces an earlier one of the same uid.
pub open spec fn tileset_map_of(dir: Seq<char>, ts: Seq<TilesetDefinition>) -> Map<i32, Seq<char>>
    decreases ts.len(),
{
    if ts.len() == 0 {
        Map::empty()
    } else {
        let prev = tileset_map_of(dir, ts.drop_last());
        match ts.last().rel_path {
            Some(p) => prev.insert(ts.last().uid, resolved(dir, p@)),
            None => prev,
        }
    }
}

/// The warnings for tilesets without an image path, in order.
pub open spec fn tileset_warnings(ts: Seq<TilesetDefinition>) -> Seq<LoadWarningView>
    decreases ts.len(),
{
    if ts.len() == 0 {
        Seq::empty()
    } else {
        let prev = tileset_warnings(ts.drop_last());
        let t = ts.last();
        match t.rel_path {
            Some(_) => prev,
            None => match t.embed_atlas {
                Some(_) => prev.push(LoadWarningView::InternalIcons { uid: t.uid }),
                None => prev.push(LoadWarningView::NullTilesetPath { identifier: t.identifier@ }),
            },
        }
    }
}

/// The metadata of one level.
pub open spec fn level_metadata_of(dir: Seq<char>, idx: LevelIndices, level: Level) -> LevelMetadataView {
    LevelMetadataView {
        bg_image: match level.bg_rel_path {
            Some(p) => Some(resolved(dir, p@)),
            None => None,
        },
        level_indices: idx,
    }
}

/// The metadata of one level stored in a file of its own.
pub open spec fn external_level_metadata_of(
    dir: Seq<char>,
    idx: LevelIndices,
    level: Level,
) -> ExternalLevelMetadataView {
    ExternalLevelMetadataView {
        metadata: level_metadata_of(dir, idx, level),
        external_handle: resolved(dir, level.external_rel_path.unwrap()@),
    }
}

/// The asset paths that one level depends on: its background image, then,
/// where levels are stored in files of their own, the level's file.
pub open spec fn level_paths(dir: Seq<char>, level: Level, external: bool) -> Seq<Seq<char>> {
    let bg = match level.bg_rel_path {
        Some(p) => seq![resolved(dir, p@)],
        None => Seq::empty(),
    };
    if external {
        bg.push(resolved(dir, level.external_rel_path.unwrap()@))
    } else {
        bg
    }
}

/// The asset paths that the levels at `idxs` depend on, level by level.
pub open spec fn levels_paths(dir: Seq<char>, doc: LdtkJson, idxs: Seq<LevelIndices>, external: bool) -> Seq<Seq<char>>
    decreases idxs.len(),
{
    if idxs.len() == 0 {
        Seq::empty()
    } else {
        levels_paths(dir, doc, idxs.drop_last(), external) + level_paths(
            dir,
            doc.spec_level_at(idxs.last()),
            external,
        )
    }
}

/// The index of the levels at `idxs`: by identifier, a later level replacing an
/// earlier one of the same identifier.
pub open spec fn internal_index(dir: Seq<char>, doc: LdtkJson, idxs: Seq<LevelIndices>) -> Map<Seq<char>, LevelMetadataView>
    decreases idxs.len(),
{
    if idxs.len() == 0 {
        Map::empty()
    } else {
        let level = doc.spec_level_at(idxs.last());
        internal_index(dir, doc, idxs.drop_last()).insert(
            level.iid@,
            level_metadata_of(dir, idxs.last(), level),
        )
    }
}

/// The index of the levels at `idxs`, for levels stored in files of their own.
pub open spec fn external_index(dir: Seq<char>, doc: LdtkJson, idxs: Seq<LevelIndices>) -> Map<Seq<char>, ExternalLevelMetadataView>
    decreases idxs.len(),
{
    if idxs.len() == 0 {
        Map::empty()
    } else {
        let level = doc.spec_level_at(idxs.last());
        external_index(dir, doc, idxs.drop_last()).insert(
            level.iid@,
            external_level_metadata_of(dir, idxs.last(), level),
        )
    }
}

/// Builds the metadata of a level, and the asset paths it depends on.
/// With `expect_level_loaded`, a level without layer data is an error.
pub fn load_level_metadata(
    dir: &str,
    level_indices: LevelIndices,
    level: &Level,
    expect_level_loaded: bool,
) -> (r: Result<(LevelMetadata, Vec<String>), LdtkProjectLoaderError>)
    ensures
        match r {
            Ok((m, paths)) => {
                &&& !(expect_level_loaded && level.layer_instances is None)
                &&& m@ == level_metadata_of(dir@, level_indices, *level)
                &&& paths_view(paths@) == level_paths(dir@, *level, false)
            },
            Err(e) => {
                &&& expect_level_loaded && level.layer_instances is None
                &&& e == LdtkProjectLoaderError::InternalLevelWithNullLayers
            },
        },
{
    let mut paths: Vec<String> = Vec::new();
    let bg_image = match &level.bg_rel_path {
        Some(rel_path) => {
            let asset_path = path_join(dir, rel_path.as_str());
            paths.push(asset_path.clone());
            Some(asset_path)
        },
        None => None,
    };
    if expect_level_loaded && level.layer_instances.is_none() {
        return Err(LdtkProjectLoaderError::InternalLevelWithNullLayers);
    }
    assert(paths_view(paths@) =~= level_paths(dir@, *level, false));
    Ok((LevelMetadata::new(bg_image, level_indices), paths))
}

/// Builds the metadata of a level stored in a file of its own, and the asset
/// paths it depends on. A level without a file path is an error.
pub fn load_external_level_metadata(
    dir: &str,
    level_indices: LevelIndices,
    level: &Level,
) -> (r: Result<(ExternalLevelMetadata, Vec<String>), LdtkProjectLoaderError>)
    ensures
        match r {
            Ok((m, paths)) => {
                &&& level.external_rel_path is Some
                &&& m@ == external_level_metadata_of(dir@, level_indices, *level)
                &&& paths_view(paths@) == level_paths(dir@, *level, true)
            },
            Err(e) => {
                &&& level.external_rel_path is None
                &&& e == LdtkProjectLoaderError::ExternalLevelWithNullPath
            },
        },
{
    let (level_metadata, mut paths) = match load_level_metadata(dir, level_indices, level, false) {
        Ok(res) => res,
        Err(e) => return Err(e),
    };
    let rel_path = match &level.external_rel_path {
        Some(p) => p,
        None => return Err(LdtkProjectLoaderError::ExternalLevelWithNullPath),
    };
    let external_level_path = path_join(dir, rel_path.as_str());
    let ghost before = paths@;
    paths.push(external_level_path.clone());
    assert(paths_view(paths@) =~= paths_view(before).push(external_level_path@));
    Ok((ExternalLevelMetadata::new(level_metadata, external_level_path), paths))
}

/// The tileset map, the tileset image paths and the warnings for the tilesets
/// that are left out.
fn load_tilesets(dir: &str, tilesets: &Vec<TilesetDefinition>) -> (r: (HashMap<i32, String>, Vec<String>, Vec<LoadWarning>))
    ensures
        r.0@.map_values(|s: String| s@) == tileset_map_of(dir@, tilesets@),
        paths_view(r.1@) == tileset_paths(dir@, tilesets@),
        warnings_view(r.2@) == tileset_warnings(tilesets@),
{
    let mut tileset_map: HashMap<i32, String> = HashMap::new();
    let mut paths: Vec<String> = Vec::new();
    let mut warnings: Vec<LoadWarning> = Vec::new();
    let mut i: usize = 0;
    assert(tileset_map@.map_values(|s: String| s@) =~= tileset_map_of(dir@, tilesets@.take(0)));
    assert(paths_view(paths@) =~= tileset_paths(dir@, tilesets@.take(0)));
    assert(warnings_view(warnings@) =~= tileset_warnings(tilesets@.take(0)));
    while i < tilesets.len()
        invariant
            i <= tilesets@.len(),
            tileset_map@.map_values(|s: String| s@) == tileset_map_of(dir@, tilesets@.take(i as int)),
            paths_view(paths@) == tileset_paths(dir@, tilesets@.take(i as int)),
            warnings_view(warnings@) == tileset_warnings(tilesets@.take(i as int)),
        decreases tilesets@.len() - i,
    {
        let tileset = &tilesets[i];
        let ghost m0 = tileset_map@;
        let ghost p0 = paths@;
        let ghost w0 = warnings@;
        assert(tilesets@.take(i + 1).drop_last() =~= tilesets@.take(i as int));
        match &tileset.rel_path {
            Some(tileset_path) => {
                let asset_path = path_join(dir, tileset_path.as_str());
                paths.push(asset_path.clone());
                tileset_map.insert(tileset.uid, asset_path);
                assert(tileset_map@.map_values(|s: String| s@) =~= m0.map_values(|s: String| s@).insert(
                    tileset.uid,
                    asset_path@,
                ));
                assert(paths_view(paths@) =~= paths_view(p0).push(asset_path@));
                assert(warnings_view(warnings@) =~= tileset_warnings(tilesets@.take(i + 1)));
            },
            None => {
                match &tileset.embed_atlas {
                    Some(_) => {
                        warnings.push(LoadWarning::InternalIcons { uid: tileset.uid });
                    },
                    None => {
                        warnings.push(LoadWarning::NullTilesetPath { identifier: tileset.identifier.clone() });
                    },
                }
                assert(warnings_view(warnings@) =~= tileset_warnings(tilesets@.take(i + 1)));
            },
        }
        i += 1;
    }
    assert(tilesets@.take(tilesets@.len() as int) =~= tilesets@);
    (tileset_map, paths, warnings)
}

/// Some level at `idxs` has no layer data.
pub open spec fn some_level_without_layers(doc: LdtkJson, idxs: Seq<LevelIndices>) -> bool {
    exists|i: int| 0 <= i < idxs.len() && (#[trigger] doc.spec_level_at(idxs[i])).layer_instances is None
}

/// Some level at `idxs` has no file path.
pub open spec fn some_level_without_path(doc: LdtkJson, idxs: Seq<LevelIndices>) -> bool {
    exists|i: int| 0 <= i < idxs.len() && (#[trigger] doc.spec_level_at(idxs[i])).external_rel_path is None
}

/// The index and the dependencies of the levels of a project that keeps them
/// in the project file.
fn load_internal_levels(dir: &str, data: &LdtkJson) -> (r: Result<(LevelMap<LevelMetadata>, Vec<String>), LdtkProjectLoaderError>)
    ensures
        match r {
            Ok((m, paths)) => {
                &&& !some_level_without_layers(*data, data.spec_raw_level_indices())
                &&& m.wf()
                &&& m.view() == internal_index(dir@, *data, data.spec_raw_level_indices())
                &&& paths_view(paths@) == levels_paths(dir@, *data, data.spec_raw_level_indices(), false)
            },
            Err(e) => {
                &&& some_level_without_layers(*data, data.spec_raw_level_indices())
                &&& e == LdtkProjectLoaderError::InternalLevelWithNullLayers
            },
        },
{
    let idxs = data.raw_level_indices();
    let mut level_map: LevelMap<LevelMetadata> = LevelMap::new();
    let mut paths: Vec<String> = Vec::new();
    let mut i: usize = 0;
    assert(paths_view(paths@) =~= levels_paths(dir@, *data, idxs@.take(0), false));
    assert(level_map.view() =~= internal_index(dir@, *data, idxs@.take(0)));
    while i < idxs.len()
        invariant
            i <= idxs@.len(),
            idxs@ == data.spec_raw_level_indices(),
            forall|j: int| 0 <= j < idxs@.len() ==> data.valid_indices(#[trigger] idxs@[j]),
            level_map.wf(),
            level_map.view() == internal_index(dir@, *data, idxs@.take(i as int)),
            paths_view(paths@) == levels_paths(dir@, *data, idxs@.take(i as int), false),
            forall|j: int| 0 <= j < i ==> (#[trigger] data.spec_level_at(idxs@[j])).layer_instances is Some,
        decreases idxs@.len() - i,
    {
        let idx = idxs[i];
        let level = data.level_at(idx);
        let (metadata, mut new_paths) = match load_level_metadata(dir, idx, level, true) {
            Ok(res) => res,
            Err(e) => return Err(e),
        };
        assert(idxs@.take(i + 1).drop_last() =~= idxs@.take(i as int));
        let ghost p0 = paths@;
        level_map.insert(level.iid.clone(), metadata);
        paths.append(&mut new_paths);
        assert(paths_view(paths@) =~= paths_view(p0) + level_paths(dir@, *level, false));
        i += 1;
    }
    assert(idxs@.take(idxs@.len() as int) =~= idxs@);
    Ok((level_map, paths))
}

/// The index and the dependencies of the levels of a project that stores each
/// level in a file of its own.
fn load_external_levels(dir: &str, data: &LdtkJson) -> (r: Result<(LevelMap<ExternalLevelMetadata>, Vec<String>), LdtkProjectLoaderError>)
    ensures
        match r {
            Ok((m, paths)) => {
                &&& !some_level_without_path(*data, data.spec_raw_level_indices())
                &&& m.wf()
                &&& m.view() == external_index(dir@, *data, data.spec_raw_level_indices())
                &&& paths_view(paths@) == levels_paths(dir@, *data, data.spec_raw_level_indices(), true)
            },
            Err(e) => {
                &&& some_level_without_path(*data, data.spec_raw_level_indices())
                &&& e == LdtkProjectLoaderError::ExternalLevelWithNullPath
            },
        },
{
    let idxs = data.raw_level_indices();
    let mut level_map: LevelMap<ExternalLevelMetadata> = LevelMap::new();
    let mut paths: Vec<String> = Vec::new();
    let mut i: usize = 0;
    assert(paths_view(paths@) =~= levels_paths(dir@, *data, idxs@.take(0), true));
    assert(level_map.view() =~= external_index(dir@, *data, idxs@.take(0)));
    while i < idxs.len()
        invariant
            i <= idxs@.len(),
            idxs@ == data.spec_raw_level_indices(),
            forall|j: int| 0 <= j < idxs@.len() ==> data.valid_indices(#[trigger] idxs@[j]),
            level_map.wf(),
            level_map.view() == external_index(dir@, *data, idxs@.take(i as int)),
            paths_view(paths@) == levels_paths(dir@, *data, idxs@.take(i as int), true),
            forall|j: int| 0 <= j < i ==> (#[trigger] data.spec_level_at(idxs@[j])).external_rel_path is Some,
        decreases idxs@.len() - i,
    {
        let idx = idxs[i];
        let level = data.level_at(idx);
        let (metadata, mut new_paths) = match load_external_level_metadata(dir, idx, level) {
            Ok(res) => res,
            Err(e) => return Err(e),
        };
        assert(idxs@.take(i + 1).drop_last() =~= idxs@.take(i as int));
        let ghost p0 = paths@;
        level_map.insert(level.iid.clone(), metadata);
        paths.append(&mut new_paths);
        assert(paths_view(paths@) =~= paths_view(p0) + level_paths(dir@, *level, true));
        i += 1;
    }
    assert(idxs@.take(idxs@.len() as int) =~= idxs@);
    Ok((level_map, paths))
}

/// A raw document together with the index of its levels.
#[derive(Clone, Debug, PartialEq)]
pub struct LdtkJsonWithMetadata<L> {
    pub json_data: LdtkJson,
    pub level_map: LevelMap<L>,
}

impl<L: View> LdtkJsonWithMetadata<L> {
    pub fn new(json_data: LdtkJson, level_map: LevelMap<L>) -> (r: Self)
        ensures
            r.json_data == json_data,
            r.level_map == level_map,
    {
        LdtkJsonWithMetadata { json_data, level_map }
    }

    /// The raw document.
    pub fn json_data(&self) -> (r: &LdtkJson)
        ensures
            *r == self.json_data,
    {
        &self.json_data
    }

    /// The index of the levels.
    pub fn level_map(&self) -> (r: &LevelMap<L>)
        ensures
            *r == self.level_map,
    {
        &self.level_map
    }

    /// The metadata of the level `iid`.
    pub fn get_level_metadata_by_iid(&self, iid: &String) -> (r: Option<&L>)
        requires
            self.level_map.wf(),
        ensures
            match r {
                Some(v) => self.level_map.view().contains_key(iid@) && v@ == self.level_map.view()[iid@],
                None => !self.level_map.view().contains_key(iid@),
            },
    {
        self.level_map.get(iid)
    }
}

/// The data of a loaded project, in one of its two layouts.
#[derive(Clone, Debug, PartialEq)]
pub enum LdtkProjectData {
    /// Levels stored inside the project file.
    Standalone(LdtkJsonWithMetadata<LevelMetadata>),
    /// Levels stored in files of their own.
    Parent(LdtkJsonWithMetadata<ExternalLevelMetadata>),
}

impl LdtkProjectData {
    pub open spec fn wf(&self) -> bool {
        match self {
            LdtkProjectData::Standalone(d) => d.level_map.wf(),
            LdtkProjectData::Parent(d) => d.level_map.wf(),
        }
    }

    pub open spec fn spec_json_data(&self) -> LdtkJson {
        match self {
            LdtkProjectData::Standalone(d) => d.json_data,
            LdtkProjectData::Parent(d) => d.json_data,
        }
    }

    /// The raw document.
    pub fn json_data(&self) -> (r: &LdtkJson)
        ensures
            *r == self.spec_json_data(),
    {
        match self {
            LdtkProjectData::Standalone(d) => &d.json_data,
            LdtkProjectData::Parent(d) => &d.json_data,
        }
    }

    /// The data of a project whose levels are stored in the project file.
    pub fn as_standalone(&self) -> (r: &LdtkJsonWithMetadata<LevelMetadata>)
        requires
            self is Standalone,
        ensures
            *r == self->Standalone_0,
    {
        match self {
            LdtkProjectData::Standalone(d) => d,
            LdtkProjectData::Parent(_) => unreached(),
        }
    }

    /// The data of a project whose levels are stored in files of their own.
    pub fn as_parent(&self) -> (r: &LdtkJsonWithMetadata<ExternalLevelMetadata>)
        requires
            self is Parent,
        ensures
            *r == self->Parent_0,
    {
        match self {
            LdtkProjectData::Parent(d) => d,
            LdtkProjectData::Standalone(_) => unreached(),
        }
    }

}

impl RawLevelAccessor for LdtkProjectData {
    open spec fn raw_data(&self) -> LdtkJson {
        self.spec_json_data()
    }

    fn root_levels(&self) -> (r: &[Level]) {
        self.json_data().root_levels()
    }

    fn worlds(&self) -> (r: &[World]) {
        self.json_data().worlds()
    }
}

impl LevelMetadataAccessor for LdtkProjectData {
    /// The index of the levels, without the paths of the levels' own files.
    open spec fn level_index(&self) -> Map<Seq<char>, LevelMetadataView> {
        match self {
            LdtkProjectData::Standalone(d) => d.level_map.view(),
            LdtkProjectData::Parent(d) => d.level_map.view().map_values(
                |m: ExternalLevelMetadataView| m.metadata,
            ),
        }
    }

    open spec fn index_wf(&self) -> bool {
        self.wf()
    }

    fn get_level_metadata_by_iid(&self, iid: &String) -> (r: Option<&LevelMetadata>) {
        match self {
            LdtkProjectData::Standalone(d) => d.get_level_metadata_by_iid(iid),
            LdtkProjectData::Parent(d) => match d.get_level_metadata_by_iid(iid) {
                Some(m) => Some(&m.metadata),
                None => None,
            },
        }
    }
}

/// A loaded LDtk project.
#[derive(Clone, Debug, PartialEq)]
pub struct LdtkProject {
    /// The raw document and the index of its levels.
    pub data: LdtkProjectData,
    /// From tileset uid to the asset path of the tileset's image.
    pub tileset_map: HashMap<i32, String>,
    /// Asset path of the image that shows the integer-grid colors.
    pub int_grid_image_handle: Option<String>,
}

impl LdtkProject {
    pub fn new(data: LdtkProjectData, tileset_map: HashMap<i32, String>, int_grid_image_handle: Option<String>) -> (r: Self)
        ensures
            r.data == data,
            r.tileset_map == tileset_map,
            r.int_grid_image_handle == int_grid_image_handle,
    {
        LdtkProject { data, tileset_map, int_grid_image_handle }
    }

    pub open spec fn tileset_view(&self) -> Map<i32, Seq<char>> {
        self.tileset_map@.map_values(|s: String| s@)
    }

    pub fn data(&self) -> (r: &LdtkProjectData)
        ensures
            *r == self.data,
    {
        &self.data
    }

    pub fn tileset_map(&self) -> (r: &HashMap<i32, String>)
        ensures
            *r == self.tileset_map,
    {
        &self.tileset_map
    }

    pub fn int_grid_image_handle(&self) -> (r: &Option<String>)
        ensures
            *r == self.int_grid_image_handle,
    {
        &self.int_grid_image_handle
    }

    /// The raw document.
    pub fn json_data(&self) -> (r: &LdtkJson)
        ensures
            *r == self.data.spec_json_data(),
    {
        self.data.json_data()
    }

    /// The data of a project whose levels are stored in the project file.
    pub fn as_standalone(&self) -> (r: &LdtkJsonWithMetadata<LevelMetadata>)
        requires
            self.data is Standalone,
        ensures
            *r == self.data->Standalone_0,
    {
        self.data.as_standalone()
    }

    /// The data of a project whose levels are stored in files of their own.
    pub fn as_parent(&self) -> (r: &LdtkJsonWithMetadata<ExternalLevelMetadata>)
        requires
            self.data is Parent,
        ensures
            *r == self.data->Parent_0,
    {
        self.data.as_parent()
    }

}

impl RawLevelAccessor for LdtkProject {
    open spec fn raw_data(&self) -> LdtkJson {
        self.data.spec_json_data()
    }

    fn root_levels(&self) -> (r: &[Level]) {
        self.data.root_levels()
    }

    fn worlds(&self) -> (r: &[World]) {
        self.data.worlds()
    }
}

impl LevelMetadataAccessor for LdtkProject {
    open spec fn level_index(&self) -> Map<Seq<char>, LevelMetadataView> {
        self.data.level_index()
    }

    open spec fn index_wf(&self) -> bool {
        self.data.wf()
    }

    fn get_level_metadata_by_iid(&self, iid: &String) -> (r: Option<&LevelMetadata>) {
        self.data.get_level_metadata_by_iid(iid)
    }
}

/// What a successful load hands back: the project, the asset paths it depends
/// on, and a warning for each tileset left out of the tileset map.
#[derive(Clone, Debug, PartialEq)]
pub struct LoadedLdtkProject {
    pub project: LdtkProject,
    pub dependencies: Vec<String>,
    pub warnings: Vec<LoadWarning>,
}

/// The label of the integer-grid image among the assets of a project file.
pub const INT_GRID_IMAGE_LABEL: &'static str = "#int_grid_image";

/// Loads LDtk projects; each flag says whether one of the two level layouts is
/// supported.
#[derive(Clone, Copy, Debug, PartialEq, Eq)]
pub struct LdtkProjectLoader {
    pub internal_levels: bool,
    pub external_levels: bool,
}

/// The asset path of the integer-grid image of the project file at `project_path`.
pub open spec fn int_grid_image_path(project_path: Seq<char>) -> Seq<char> {
    project_path + INT_GRID_IMAGE_LABEL@
}

impl LdtkProjectLoader {
    /// Why loading `data` fails, if it does, once the project directory is known.
    pub open spec fn load_error(&self, data: LdtkJson) -> Option<LdtkProjectLoaderError> {
        let idxs = data.spec_raw_level_indices();
        if data.external_levels {
            if !self.external_levels {
                Some(LdtkProjectLoaderError::ExternalLevelsDisabled)
            } else if some_level_without_path(data, idxs) {
                Some(LdtkProjectLoaderError::ExternalLevelWithNullPath)
            } else {
                None
            }
        } else {
            if !self.internal_levels {
                Some(LdtkProjectLoaderError::InternalLevelsDisabled)
            } else if some_level_without_layers(data, idxs) {
                Some(LdtkProjectLoaderError::InternalLevelWithNullLayers)
            } else {
                None
            }
        }
    }

    /// What a successful load of `data` from the directory `dir` hands back.
    pub open spec fn loaded(data: LdtkJson, project_path: Seq<char>, dir: Seq<char>, l: LoadedLdtkProject) -> bool {
        let idxs = data.spec_raw_level_indices();
        let ts = data.defs.tilesets@;
        &&& l.project.data.wf()
        &&& l.project.data.spec_json_data() == data
        &&& match l.project.data {
            LdtkProjectData::Standalone(d) => !data.external_levels && d.level_map.view()
                == internal_index(dir, data, idxs),
            LdtkProjectData::Parent(d) => data.external_levels && d.level_map.view()
                == external_index(dir, data, idxs),
        }
        &&& l.project.tileset_view() == tileset_map_of(dir, ts)
        &&& opt_view(l.project.int_grid_image_handle) == if data.defs.declares_int_grid() {
            Some(int_grid_image_path(project_path))
        } else {
            None
        }
        &&& paths_view(l.dependencies@) == tileset_paths(dir, ts) + levels_paths(
            dir,
            data,
            idxs,
            data.external_levels,
        )
        &&& warnings_view(l.warnings@) == tileset_warnings(ts)
    }

    /// The outcome of loading `data`, read from the project file at `project_path`.
    pub open spec fn load_outcome(
        &self,
        data: LdtkJson,
        project_path: Seq<char>,
        r: Result<LoadedLdtkProject, LdtkProjectLoaderError>,
    ) -> bool {
        match parent_of(project_path) {
            None => r == Err::<LoadedLdtkProject, LdtkProjectLoaderError>(
                LdtkProjectLoaderError::ProjectPathWithoutDirectory,
            ),
            Some(dir) => match self.load_error(data) {
                Some(e) => r == Err::<LoadedLdtkProject, LdtkProjectLoaderError>(e),
                None => r is Ok && Self::loaded(data, project_path, dir, r->Ok_0),
            },
        }
    }

    /// Builds the project asset of the document `data`, read from the project
    /// file at `project_path`: the tileset map, the index of the levels in the
    /// layout that the document declares, and the asset paths it depends on.
    pub fn load(&self, data: LdtkJson, project_path: &str) -> (r: Result<LoadedLdtkProject, LdtkProjectLoaderError>)
        ensures
            self.load_outcome(data, project_path@, r),
    {
        let dir = match path_parent(project_path) {
            Some(d) => d,
            None => return Err(LdtkProjectLoaderError::ProjectPathWithoutDirectory),
        };
        let (tileset_map, mut dependencies, warnings) = load_tilesets(dir.as_str(), &data.defs.tilesets);
        let int_grid_image_handle = if data.defs.has_int_grid_layer() {
            Some(String::from_str(project_path).concat(INT_GRID_IMAGE_LABEL))
        } else {
            None
        };
        let ghost d0 = dependencies@;
        let project_data = if data.external_levels {
            if !self.external_levels {
                return Err(LdtkProjectLoaderError::ExternalLevelsDisabled);
            }
            let (level_map, mut paths) = match load_external_levels(dir.as_str(), &data) {
                Ok(res) => res,
                Err(e) => return Err(e),
            };
            dependencies.append(&mut paths);
            LdtkProjectData::Parent(LdtkJsonWithMetadata::new(data, level_map))
        } else {
            if !self.internal_levels {
                return Err(LdtkProjectLoaderError::InternalLevelsDisabled);
            }
            let (level_map, mut paths) = match load_internal_levels(dir.as_str(), &data) {
                Ok(res) => res,
                Err(e) => return Err(e),
            };
            dependencies.append(&mut paths);
            LdtkProjectData::Standalone(LdtkJsonWithMetadata::new(data, level_map))
        };
        let ghost ext = data.external_levels;
        let ghost idxs = data.spec_raw_level_indices();
        assert(paths_view(dependencies@) =~= paths_view(d0) + levels_paths(dir@, data, idxs, ext));
        Ok(LoadedLdtkProject {
            project: LdtkProject::new(project_data, tileset_map, int_grid_image_handle),
            dependencies,
            warnings,
        })
    }

    /// The file extensions of the files this loader reads.
    pub fn extensions(&self) -> (r: Vec<String>)
        ensures
            r@.len() == 1,
            r@[0]@ == "ldtk"@,
    {
        proof { reveal_strlit("ldtk"); }
        vec![String::from_str("ldtk")]
    }
}

} // verus!
