use vstd::prelude::*;
use crate::errors::MinepackError;
use crate::text::{join_path, join_spec};

verus! {

/// The name of the project manifest file.
pub const CONFIG_FILENAME: &'static str = "minepack.json";

/// Where the tool runs: the directory of the project.
pub trait Env {
    /// The current (project) directory.
    fn current_dir(&self) -> Result<String, MinepackError>;
}

/// The places of a project's layout.
#[derive(Debug, Clone, Copy, PartialEq, Eq, Structural)]
pub enum ProjectPlace {
    /// The project manifest.
    ConfigFile,
    /// Where built packages go.
    Build,
    /// The mod descriptors.
    Mods,
    /// The game configuration files.
    Config,
    /// The tool's own directory.
    Tool,
    /// The cache.
    Cache,
    /// The cache of mod files.
    CacheMods,
}

/// The path of a place inside the project directory `d`.
pub open spec fn place_path(d: Seq<char>, place: ProjectPlace) -> Seq<char> {
    match place {
        ProjectPlace::ConfigFile => join_spec(d, "minepack.json"@),
        ProjectPlace::Build => join_spec(d, "build"@),
        ProjectPlace::Mods => join_spec(d, "mods"@),
        ProjectPlace::Config => join_spec(d, "config"@),
        ProjectPlace::Tool => join_spec(d, ".minepack"@),
        ProjectPlace::Cache => join_spec(join_spec(d, ".minepack"@), "cache"@),
        ProjectPlace::CacheMods => join_spec(join_spec(join_spec(d, ".minepack"@), "cache"@), "mods"@),
    }
}

/// The path of a place inside the project directory `dir`.
pub fn project_path(dir: &str, place: ProjectPlace) -> (r: String)
    ensures
        r@ == place_path(dir@, place),
{
    match place {
        ProjectPlace::ConfigFile => join_path(dir, CONFIG_FILENAME),
        ProjectPlace::Build => join_path(dir, "build"),
        ProjectPlace::Mods => join_path(dir, "mods"),
        ProjectPlace::Config => join_path(dir, "config"),
        ProjectPlace::Tool => join_path(dir, ".minepack"),
        ProjectPlace::Cache => {
            let tool = join_path(dir, ".minepack");
            join_path(tool.as_str(), "cache")
        },
        ProjectPlace::CacheMods => {
            let tool = join_path(dir, ".minepack");
            let cache = join_path(tool.as_str(), "cache");
            join_path(cache.as_str(), "mods")
        },
    }
}

/// The directories of a project's layout in `d`, in the order they are
/// created: mods, config, tool, cache and mod cache.
pub open spec fn layout_spec(d: Seq<char>) -> Seq<Seq<char>> {
    seq![
        place_path(d, ProjectPlace::Mods),
        place_path(d, ProjectPlace::Config),
        place_path(d, ProjectPlace::Tool),
        place_path(d, ProjectPlace::Cache),
        place_path(d, ProjectPlace::CacheMods),
    ]
}

/// The directories of a project's layout in `dir`, in the order they are created.
pub fn project_layout(dir: &str) -> (r: Vec<String>)
    ensures
        r@.map_values(|p: String| p@) == layout_spec(dir@),
{
    let mut v: Vec<String> = Vec::new();
    v.push(project_path(dir, ProjectPlace::Mods));
    v.push(project_path(dir, ProjectPlace::Config));
    v.push(project_path(dir, ProjectPlace::Tool));
    v.push(project_path(dir, ProjectPlace::Cache));
    v.push(project_path(dir, ProjectPlace::CacheMods));
    assert(v@.map_values(|p: String| p@) =~= layout_spec(dir@));
    v
}

/// `r`, when it is a path, is `place` inside some directory that the
/// environment reported. (Nothing is known of what an `Env` reports.)
pub open spec fn path_of_place(r: Result<String, MinepackError>, place: ProjectPlace) -> bool {
    r matches Ok(p) ==> exists|d: Seq<char>| p@ == #[trigger] place_path(d, place)
}

fn place_in_env<E: Env>(env: &E, place: ProjectPlace) -> (r: Result<String, MinepackError>)
    ensures
        path_of_place(r, place),
{
    let dir = env.current_dir()?;
    let p = project_path(dir.as_str(), place);
    assert(p@ == place_path(dir@, place));
    Ok(p)
}

/// The path of the project manifest.
pub fn get_minepack_config_path<E: Env>(env: &E) -> (r: Result<String, MinepackError>)
    ensures
        path_of_place(r, ProjectPlace::ConfigFile),
{
    place_in_env(env, ProjectPlace::ConfigFile)
}

/// The directory that built packages go to.
pub fn get_build_dir<E: Env>(env: &E) -> (r: Result<String, MinepackError>)
    ensures
        path_of_place(r, ProjectPlace::Build),
{
    place_in_env(env, ProjectPlace::Build)
}

/// The directory of the mod descriptors.
pub fn get_mods_dir<E: Env>(env: &E) -> (r: Result<String, MinepackError>)
    ensures
        path_of_place(r, ProjectPlace::Mods),
{
    place_in_env(env, ProjectPlace::Mods)
}

/// The directory of the game configuration files.
pub fn get_config_dir<E: Env>(env: &E) -> (r: Result<String, MinepackError>)
    ensures
        path_of_place(r, ProjectPlace::Config),
{
    place_in_env(env, ProjectPlace::Config)
}

/// The tool's own directory inside the project.
pub fn get_minepack_dir<E: Env>(env: &E) -> (r: Result<String, MinepackError>)
    ensures
        path_of_place(r, ProjectPlace::Tool),
{
    place_in_env(env, ProjectPlace::Tool)
}

/// The cache directory.
pub fn get_minepack_cache_dir<E: Env>(env: &E) -> (r: Result<String, MinepackError>)
    ensures
        path_of_place(r, ProjectPlace::Cache),
{
    place_in_env(env, ProjectPlace::Cache)
}

/// The cache directory of mod files.
pub fn get_minepack_cache_mods_dir<E: Env>(env: &E) -> (r: Result<String, MinepackError>)
    ensures
        path_of_place(r, ProjectPlace::CacheMods),
{
    place_in_env(env, ProjectPlace::CacheMods)
}

/// The directories of a project's layout, all inside the one directory that
/// the environment reported, in the order they are created.
pub fn create_modpack_structure<E: Env>(env: &E) -> (r: Result<Vec<String>, MinepackError>)
    ensures
        r matches Ok(v) ==> exists|d: Seq<char>| v@.map_values(|p: String| p@) == #[trigger] layout_spec(d),
{
    let dir = env.current_dir()?;
    let v = project_layout(dir.as_str());
    assert(v@.map_values(|p: String| p@) == layout_spec(dir@));
    Ok(v)
}

} // verus!
