use ldtk_project::asset_path::ldtk_path_to_asset_path;
use ldtk_project::ldtk::{
    Definitions, LayerDefinition, LayerInstance, LayerType, LdtkJson, Level, LevelIndices,
    RawLevelAccessor, TilesetDefinition, World,
};
use ldtk_project::level_map::LevelMetadataAccessor;
use ldtk_project::ldtk_project::{
    LdtkProjectData, LdtkProjectLoader, LdtkProjectLoaderError, LoadWarning, LoadedLdtkProject,
};

fn level(iid: &str, layers: bool, bg: Option<&str>, ext: Option<&str>) -> Level {
    Level {
        iid: iid.to_string(),
        identifier: format!("Level_{iid}"),
        layer_instances: if layers {
            Some(vec![LayerInstance { identifier: "Ground".to_string(), layer_def_uid: 1 }])
        } else {
            None
        },
        bg_rel_path: bg.map(|s| s.to_string()),
        external_rel_path: ext.map(|s| s.to_string()),
    }
}

fn tileset(uid: i32, path: Option<&str>, atlas: bool) -> TilesetDefinition {
    TilesetDefinition {
        uid,
        identifier: format!("Tileset{uid}"),
        rel_path: path.map(|s| s.to_string()),
        embed_atlas: if atlas { Some("LdtkIcons".to_string()) } else { None },
    }
}

fn doc(external: bool, tilesets: Vec<TilesetDefinition>, levels: Vec<Level>, worlds: Vec<World>) -> LdtkJson {
    LdtkJson {
        external_levels: external,
        defs: Definitions { tilesets, layers: vec![] },
        levels,
        worlds,
    }
}

fn both() -> LdtkProjectLoader {
    LdtkProjectLoader { internal_levels: true, external_levels: true }
}

fn load_ok(loader: LdtkProjectLoader, data: LdtkJson, path: &str) -> LoadedLdtkProject {
    match loader.load(data, path) {
        Ok(l) => l,
        Err(e) => panic!("load failed: {}", e.message()),
    }
}

#[test]
fn resolves_relative_path_against_project_directory() {
    assert_eq!(
        ldtk_path_to_asset_path("levels/world.ldtk", "img/bg.png"),
        Some("levels/img/bg.png".to_string())
    );
}

#[test]
fn resolves_relative_path_for_project_at_root() {
    assert_eq!(ldtk_path_to_asset_path("world.ldtk", "img/bg.png"), Some("img/bg.png".to_string()));
}

#[test]
fn path_without_directory_is_not_resolved() {
    assert_eq!(ldtk_path_to_asset_path("", "img/bg.png"), None);
}

#[test]
fn embedded_level_without_layers_fails() {
    let data = doc(false, vec![], vec![level("a", true, None, None), level("b", false, None, None)], vec![]);
    let r = both().load(data, "levels/world.ldtk");
    assert_eq!(r, Err(LdtkProjectLoaderError::InternalLevelWithNullLayers));
}

#[test]
fn external_level_without_path_fails() {
    let data = doc(true, vec![], vec![level("a", false, None, Some("world/a.ldtkl")), level("b", false, None, None)], vec![]);
    let r = both().load(data, "levels/world.ldtk");
    assert_eq!(r, Err(LdtkProjectLoaderError::ExternalLevelWithNullPath));
}

#[test]
fn external_levels_disabled_fails_before_reading_levels() {
    let data = doc(true, vec![], vec![level("a", false, None, None)], vec![]);
    let loader = LdtkProjectLoader { internal_levels: true, external_levels: false };
    assert_eq!(loader.load(data, "levels/world.ldtk"), Err(LdtkProjectLoaderError::ExternalLevelsDisabled));
}

#[test]
fn internal_levels_disabled_fails_before_reading_levels() {
    let data = doc(false, vec![], vec![level("a", false, None, None)], vec![]);
    let loader = LdtkProjectLoader { internal_levels: false, external_levels: true };
    assert_eq!(loader.load(data, "levels/world.ldtk"), Err(LdtkProjectLoaderError::InternalLevelsDisabled));
}

#[test]
fn project_path_without_directory_fails() {
    let data = doc(false, vec![], vec![level("a", true, None, None)], vec![]);
    assert_eq!(both().load(data, ""), Err(LdtkProjectLoaderError::ProjectPathWithoutDirectory));
}

#[test]
fn tileset_without_path_is_left_out_with_warning() {
    let data = doc(
        false,
        vec![tileset(1, Some("tiles.png"), false), tileset(2, None, false), tileset(3, None, true)],
        vec![level("a", true, None, None)],
        vec![],
    );
    let l = load_ok(both(), data, "levels/world.ldtk");
    assert_eq!(l.project.tileset_map().len(), 1);
    assert_eq!(l.project.tileset_map().get(&1), Some(&"levels/tiles.png".to_string()));
    assert_eq!(l.project.tileset_map().get(&2), None);
    assert_eq!(l.project.tileset_map().get(&3), None);
    assert_eq!(
        l.warnings,
        vec![
            LoadWarning::NullTilesetPath { identifier: "Tileset2".to_string() },
            LoadWarning::InternalIcons { uid: 3 },
        ]
    );
    assert_eq!(l.dependencies, vec!["levels/tiles.png".to_string()]);
}

#[test]
fn index_has_one_entry_per_level() {
    let world = World {
        iid: "w".to_string(),
        identifier: "World".to_string(),
        levels: vec![level("c", true, None, None), level("d", true, Some("bg/d.png"), None)],
    };
    let data = doc(false, vec![], vec![level("a", true, None, None), level("b", true, None, None)], vec![world]);
    let l = load_ok(both(), data, "levels/world.ldtk");
    let s = l.project.as_standalone();
    assert_eq!(s.level_map().len(), 4);
    for iid in ["a", "b", "c", "d"] {
        assert!(l.project.get_level_metadata_by_iid(&iid.to_string()).is_some());
    }
    assert!(l.project.get_level_metadata_by_iid(&"e".to_string()).is_none());
    let d = l.project.get_level_metadata_by_iid(&"d".to_string()).unwrap();
    assert_eq!(d.level_indices(), LevelIndices { world: Some(0), level: 1 });
    assert_eq!(d.bg_image(), &Some("levels/bg/d.png".to_string()));
    let b = l.project.get_level_metadata_by_iid(&"b".to_string()).unwrap();
    assert_eq!(b.level_indices(), LevelIndices { world: None, level: 1 });
    assert_eq!(b.bg_image(), &None);
}

#[test]
fn duplicate_level_identifier_keeps_later_level() {
    let data = doc(false, vec![], vec![level("a", true, None, None), level("a", true, Some("bg.png"), None)], vec![]);
    let l = load_ok(both(), data, "levels/world.ldtk");
    assert_eq!(l.project.as_standalone().level_map().len(), 1);
    let a = l.project.get_level_metadata_by_iid(&"a".to_string()).unwrap();
    assert_eq!(a.level_indices(), LevelIndices { world: None, level: 1 });
    assert_eq!(l.dependencies, vec!["levels/bg.png".to_string()]);
}

#[test]
fn dependencies_empty_without_paths() {
    let data = doc(false, vec![tileset(2, None, false)], vec![level("a", true, None, None)], vec![]);
    let l = load_ok(both(), data, "levels/world.ldtk");
    assert!(l.dependencies.is_empty());
}

#[test]
fn dependencies_in_order_tilesets_then_levels() {
    let data = doc(
        true,
        vec![tileset(1, Some("t.png"), false)],
        vec![level("a", false, Some("bg/a.png"), Some("world/a.ldtkl")), level("b", false, None, Some("world/b.ldtkl"))],
        vec![],
    );
    let l = load_ok(both(), data, "levels/world.ldtk");
    assert_eq!(
        l.dependencies,
        vec![
            "levels/t.png".to_string(),
            "levels/bg/a.png".to_string(),
            "levels/world/a.ldtkl".to_string(),
            "levels/world/b.ldtkl".to_string(),
        ]
    );
    let p = l.project.as_parent();
    let a = p.get_level_metadata_by_iid(&"a".to_string()).unwrap();
    assert_eq!(a.external_handle(), &"levels/world/a.ldtkl".to_string());
    assert_eq!(a.metadata().bg_image(), &Some("levels/bg/a.png".to_string()));
    assert!(matches!(l.project.data(), LdtkProjectData::Parent(_)));
}

#[test]
fn background_alone_makes_dependencies_nonempty() {
    let data = doc(false, vec![], vec![level("a", true, Some("a.png"), None)], vec![]);
    let l = load_ok(both(), data, "levels/world.ldtk");
    assert_eq!(l.dependencies, vec!["levels/a.png".to_string()]);
}

#[test]
fn two_loads_give_same_index() {
    let make = || {
        doc(
            false,
            vec![tileset(1, Some("t.png"), false)],
            vec![level("a", true, Some("a.png"), None), level("b", true, None, None)],
            vec![],
        )
    };
    let l1 = load_ok(both(), make(), "levels/world.ldtk");
    let l2 = load_ok(both(), make(), "levels/world.ldtk");
    assert_eq!(l1, l2);
    assert_eq!(l1.project.as_standalone().level_map(), l2.project.as_standalone().level_map());
}

#[test]
fn int_grid_layer_gives_int_grid_image() {
    let mut data = doc(false, vec![], vec![level("a", true, None, None)], vec![]);
    data.defs.layers.push(LayerDefinition { uid: 1, identifier: "Walls".to_string(), layer_type: LayerType::IntGrid });
    let l = load_ok(both(), data, "levels/world.ldtk");
    assert_eq!(l.project.int_grid_image_handle(), &Some("levels/world.ldtk#int_grid_image".to_string()));
}

#[test]
fn no_int_grid_layer_gives_no_image() {
    let mut data = doc(false, vec![], vec![level("a", true, None, None)], vec![]);
    data.defs.layers.push(LayerDefinition { uid: 1, identifier: "Things".to_string(), layer_type: LayerType::Entities });
    let l = load_ok(both(), data, "levels/world.ldtk");
    assert_eq!(l.project.int_grid_image_handle(), &None);
}

#[test]
fn raw_levels_are_kept() {
    let world = World { iid: "w".to_string(), identifier: "W".to_string(), levels: vec![level("c", true, None, None)] };
    let data = doc(false, vec![], vec![level("a", true, None, None)], vec![world]);
    let l = load_ok(both(), data.clone(), "levels/world.ldtk");
    assert_eq!(l.project.json_data(), &data);
    assert_eq!(l.project.root_levels().len(), 1);
    assert_eq!(l.project.worlds().len(), 1);
    assert_eq!(data.raw_level_indices(), vec![LevelIndices { world: None, level: 0 }, LevelIndices { world: Some(0), level: 0 }]);
}

#[test]
fn loader_reads_ldtk_files() {
    assert_eq!(both().extensions(), vec!["ldtk".to_string()]);
}

#[test]
fn error_messages_name_the_cause() {
    assert!(LdtkProjectLoaderError::ExternalLevelWithNullPath.message().contains("external_rel_path"));
    assert!(LdtkProjectLoaderError::InternalLevelWithNullLayers.message().contains("layer_instances"));
}
