//! Loading of LDtk level-design projects: the raw document model, the level
//! metadata index, the two project layouts and the loader that builds them.

pub mod asset_path;
pub mod ldtk;
pub mod level_map;
pub mod ldtk_project;
pub mod project_lemmas;
