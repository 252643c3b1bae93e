use minepack::errors::MinepackError;
use minepack::text::{join_path, parse_u32, replace_spaces, u32_text};
use minepack::utils::{
    create_modpack_structure, get_build_dir, get_config_dir, get_minepack_cache_dir,
    get_minepack_cache_mods_dir, get_minepack_config_path, get_minepack_dir, get_mods_dir,
    project_layout, project_path, Env, ProjectPlace,
};

struct At(Option<&'static str>);

impl Env for At {
    fn current_dir(&self) -> Result<String, MinepackError> {
        match self.0 {
            Some(d) => Ok(d.to_string()),
            None => Err(MinepackError::IoError("no current directory".to_string())),
        }
    }
}

#[test]
fn project_paths_hang_off_the_current_directory() {
    let env = At(Some("/work/pack"));
    assert_eq!(get_minepack_config_path(&env), Ok("/work/pack/minepack.json".to_string()));
    assert_eq!(get_build_dir(&env), Ok("/work/pack/build".to_string()));
    assert_eq!(get_mods_dir(&env), Ok("/work/pack/mods".to_string()));
    assert_eq!(get_config_dir(&env), Ok("/work/pack/config".to_string()));
    assert_eq!(get_minepack_dir(&env), Ok("/work/pack/.minepack".to_string()));
    assert_eq!(get_minepack_cache_dir(&env), Ok("/work/pack/.minepack/cache".to_string()));
    assert_eq!(get_minepack_cache_mods_dir(&env), Ok("/work/pack/.minepack/cache/mods".to_string()));
}

#[test]
fn project_structure_lists_directories_in_order() {
    let dirs = create_modpack_structure(&At(Some("/p/"))).unwrap();
    assert_eq!(
        dirs,
        vec!["/p/mods", "/p/config", "/p/.minepack", "/p/.minepack/cache", "/p/.minepack/cache/mods"]
    );
}

#[test]
fn paths_fail_without_a_current_directory() {
    let env = At(None);
    assert!(get_mods_dir(&env).is_err());
    assert!(create_modpack_structure(&env).is_err());
}

#[test]
fn join_adds_one_separator() {
    assert_eq!(join_path("a", "b"), "a/b");
    assert_eq!(join_path("a/", "b"), "a/b");
    assert_eq!(join_path("", "b"), "/b");
}

#[test]
fn places_inside_a_given_directory() {
    assert_eq!(project_path("/d", ProjectPlace::ConfigFile), "/d/minepack.json");
    assert_eq!(project_path("/d/", ProjectPlace::CacheMods), "/d/.minepack/cache/mods");
    assert_eq!(project_path("/d", ProjectPlace::Build), "/d/build");
    assert_eq!(
        project_layout("/d"),
        vec!["/d/mods", "/d/config", "/d/.minepack", "/d/.minepack/cache", "/d/.minepack/cache/mods"]
    );
}

#[test]
fn decimal_text_both_ways() {
    assert_eq!(u32_text(0), "0");
    assert_eq!(u32_text(4294967295), "4294967295");
    assert_eq!(u32_text(1030830), "1030830");
    assert_eq!(parse_u32("6332315"), Some(6332315));
    assert_eq!(parse_u32("+007"), Some(7));
    assert_eq!(parse_u32("4294967295"), Some(4294967295));
    assert_eq!(parse_u32("4294967296"), None);
    assert_eq!(parse_u32(""), None);
    assert_eq!(parse_u32("+"), None);
    assert_eq!(parse_u32("-0"), None);
    assert_eq!(parse_u32("12a"), None);
}

#[test]
fn spaces_become_hyphens() {
    assert_eq!(replace_spaces("just enough  items"), "just-enough--items");
    assert_eq!(replace_spaces(""), "");
}
