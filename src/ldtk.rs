//! The raw LDtk document: definitions, worlds and levels, as parsed.

use vstd::prelude::*;

verus! {

/// A tileset definition of the project.
#[derive(Clone, Debug, PartialEq)]
pub struct TilesetDefinition {
    pub uid: i32,
    pub identifier: String,
    /// Path of the tileset image, relative to the project file.
    pub rel_path: Option<String>,
    /// Set when the tileset is one of LDtk's built-in icon atlases.
    pub embed_atlas: Option<String>,
}

/// The kind of a layer definition.
#[derive(Clone, Copy, Debug, PartialEq, Eq)]
pub enum LayerType {
    IntGrid,
    Entities,
    Tiles,
    AutoLayer,
}

/// A layer definition of the project.
#[derive(Clone, Debug, PartialEq)]
pub struct LayerDefinition {
    pub uid: i32,
    pub identifier: String,
    pub layer_type: LayerType,
}

/// The global definitions of a project.
#[derive(Clone, Debug, PartialEq)]
pub struct Definitions {
    pub tilesets: Vec<TilesetDefinition>,
    pub layers: Vec<LayerDefinition>,
}

/// One layer of a level's content.
#[derive(Clone, Debug, PartialEq)]
pub struct LayerInstance {
    pub identifier: String,
    pub layer_def_uid: i32,
}

/// A level as it appears in the project file.
#[derive(Clone, Debug, PartialEq)]
pub struct Level {
    /// Unique identifier of the level within the project.
    pub iid: String,
    pub identifier: String,
    /// The level's layers; absent when the level is stored in its own file.
    pub layer_instances: Option<Vec<LayerInstance>>,
    /// Background image path, relative to the project file.
    pub bg_rel_path: Option<String>,
    /// Path of the level's own file, relative to the project file.
    pub external_rel_path: Option<String>,
}

/// A world: a group of levels.
#[derive(Clone, Debug, PartialEq)]
pub struct World {
    pub iid: String,
    pub identifier: String,
    pub levels: Vec<Level>,
}

/// The whole project document.
#[derive(Clone, Debug, PartialEq)]
pub struct LdtkJson {
    /// Whether each level's content is stored in a file of its own.
    pub external_levels: bool,
    pub defs: Definitions,
    /// Levels outside any world.
    pub levels: Vec<Level>,
    pub worlds: Vec<World>,
}

/// Where a level stands in the document: in a world, or among the root levels.
#[derive(Clone, Copy, Debug, PartialEq, Eq, Hash)]
pub struct LevelIndices {
    pub world: Option<usize>,
    pub level: usize,
}

pub open spec fn root_level_indices(n: nat) -> Seq<LevelIndices> {
    Seq::new(n, |i: int| LevelIndices { world: None, level: i as usize })
}

pub open spec fn world_level_indices(w: int, n: nat) -> Seq<LevelIndices> {
    Seq::new(n, |i: int| LevelIndices { world: Some(w as usize), level: i as usize })
}

/// The indices of the levels of the first `k` worlds, world by world.
pub open spec fn worlds_level_indices(worlds: Seq<World>, k: int) -> Seq<LevelIndices>
    decreases k,
{
    if k <= 0 {
        Seq::empty()
    } else {
        worlds_level_indices(worlds, k - 1) + world_level_indices(k - 1, worlds[k - 1].levels@.len())
    }
}

/// Read access to the raw levels of a project, whatever holds them.
pub trait RawLevelAccessor {
    /// The raw document behind the value.
    spec fn raw_data(&self) -> LdtkJson;

    /// The levels outside any world.
    fn root_levels(&self) -> (r: &[Level])
        ensures
            r@ == self.raw_data().levels@,
    ;

    /// The worlds of the document.
    fn worlds(&self) -> (r: &[World])
        ensures
            r@ == self.raw_data().worlds@,
    ;
}

impl Definitions {
    pub open spec fn declares_int_grid(&self) -> bool {
        exists|i: int| 0 <= i < self.layers@.len() && self.layers@[i].layer_type == LayerType::IntGrid
    }

    /// Whether some layer definition is an integer grid.
    pub fn has_int_grid_layer(&self) -> (r: bool)
        ensures
            r == self.declares_int_grid(),
    {
        let mut i: usize = 0;
        while i < self.layers.len()
            invariant
                i <= self.layers@.len(),
                forall|j: int| 0 <= j < i ==> self.layers@[j].layer_type != LayerType::IntGrid,
            decreases self.layers@.len() - i,
        {
            match self.layers[i].layer_type {
                LayerType::IntGrid => return true,
                _ => {},
            }
            i += 1;
        }
        false
    }
}

impl LdtkJson {
    /// Every level of the document, root levels first, then world by world.
    pub open spec fn spec_raw_level_indices(&self) -> Seq<LevelIndices> {
        root_level_indices(self.levels@.len()) + worlds_level_indices(self.worlds@, self.worlds@.len() as int)
    }

    pub open spec fn valid_indices(&self, idx: LevelIndices) -> bool {
        match idx.world {
            None => idx.level < self.levels@.len(),
            Some(w) => w < self.worlds@.len() && idx.level < self.worlds@[w as int].levels@.len(),
        }
    }

    pub open spec fn spec_level_at(&self, idx: LevelIndices) -> Level {
        match idx.world {
            None => self.levels@[idx.level as int],
            Some(w) => self.worlds@[w as int].levels@[idx.level as int],
        }
    }

    /// The level at the given place.
    pub fn level_at(&self, idx: LevelIndices) -> (r: &Level)
        requires
            self.valid_indices(idx),
        ensures
            *r == self.spec_level_at(idx),
    {
        match idx.world {
            None => &self.levels[idx.level],
            Some(w) => &self.worlds[w].levels[idx.level],
        }
    }

    /// The places of all levels, in document order.
    pub fn raw_level_indices(&self) -> (r: Vec<LevelIndices>)
        ensures
            r@ == self.spec_raw_level_indices(),
            forall|i: int| 0 <= i < r@.len() ==> self.valid_indices(#[trigger] r@[i]),
    {
        let mut r: Vec<LevelIndices> = Vec::new();
        let mut i: usize = 0;
        while i < self.levels.len()
            invariant
                i <= self.levels@.len(),
                r@ == root_level_indices(i as nat),
                forall|j: int| 0 <= j < r@.len() ==> self.valid_indices(#[trigger] r@[j]),
            decreases self.levels@.len() - i,
        {
            r.push(LevelIndices { world: None, level: i });
            assert(r@ =~= root_level_indices((i + 1) as nat));
            i += 1;
        }
        let ghost root = r@;
        let mut w: usize = 0;
        while w < self.worlds.len()
            invariant
                w <= self.worlds@.len(),
                root == root_level_indices(self.levels@.len()),
                r@ == root + worlds_level_indices(self.worlds@, w as int),
                forall|j: int| 0 <= j < r@.len() ==> self.valid_indices(#[trigger] r@[j]),
            decreases self.worlds@.len() - w,
        {
            let levels = &self.worlds[w].levels;
            let ghost before = r@;
            let mut j: usize = 0;
            while j < levels.len()
                invariant
                    w < self.worlds@.len(),
                    *levels == self.worlds@[w as int].levels,
                    j <= levels@.len(),
                    r@ == before + world_level_indices(w as int, j as nat),
                    forall|k: int| 0 <= k < r@.len() ==> self.valid_indices(#[trigger] r@[k]),
                decreases levels@.len() - j,
            {
                r.push(LevelIndices { world: Some(w), level: j });
                assert(world_level_indices(w as int, (j + 1) as nat) =~= world_level_indices(
                    w as int,
                    j as nat,
                ).push(LevelIndices { world: Some(w), level: j }));
                assert(r@ =~= before + world_level_indices(w as int, (j + 1) as nat));
                j += 1;
            }
            assert(worlds_level_indices(self.worlds@, (w + 1) as int) == worlds_level_indices(
                self.worlds@,
                w as int,
            ) + world_level_indices(w as int, self.worlds@[w as int].levels@.len()));
            assert(r@ =~= root + worlds_level_indices(self.worlds@, (w + 1) as int));
            w += 1;
        }
        r
    }
}

impl RawLevelAccessor for LdtkJson {
    open spec fn raw_data(&self) -> LdtkJson {
        *self
    }

    fn root_levels(&self) -> (r: &[Level]) {
        self.levels.as_slice()
    }

    fn worlds(&self) -> (r: &[World]) {
        self.worlds.as_slice()
    }
}

} // verus!
