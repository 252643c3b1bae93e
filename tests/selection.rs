use minepack::schema::{
    File, FileDependency, FileRelationType, FileReleaseType, FileStatus, Mod, ModLinks, ModStatus,
};
use minepack::errors::MinepackError;
use minepack::select::{default_choice, select_file_version, FileSelection};
use minepack::side::{determine_mod_side_cf, side_from_lowered};
use minepack::config::Side;

fn file(id: u32, name: &str, versions: &[&str], deps: &[(u32, FileRelationType)]) -> File {
    File {
        id,
        game_id: 432,
        mod_id: 0,
        is_available: true,
        display_name: name.to_string(),
        file_name: format!("{}.jar", name),
        release_type: FileReleaseType::Release,
        file_status: FileStatus::Approved,
        hashes: vec![],
        file_date: String::new(),
        file_length: 0,
        download_count: 0,
        download_url: Some(format!("https://example.invalid/{}.jar", name)),
        game_versions: versions.iter().map(|v| v.to_string()).collect(),
        sortable_game_versions: vec![],
        dependencies: Some(
            deps.iter()
                .map(|(m, r)| FileDependency { mod_id: *m, file_id: None, relation_type: *r })
                .collect(),
        ),
        expose_as_alternative: None,
        parent_project_file_id: None,
        alternate_file_id: None,
        is_server_pack: None,
        server_pack_file_id: None,
        file_fingerprint: 0,
        modules: None,
    }
}

fn a_mod(id: u32, name: &str, slug: &str, files: Vec<File>) -> Mod {
    Mod {
        id,
        game_id: 432,
        name: name.to_string(),
        slug: slug.to_string(),
        links: ModLinks { website_url: None, wiki_url: None, issues_url: None, source_url: None },
        summary: String::new(),
        status: ModStatus::Approved,
        download_count: 0,
        is_featured: false,
        primary_category_id: 0,
        categories: vec![],
        class_id: None,
        authors: vec![],
        logo: None,
        screenshots: vec![],
        main_file_id: 0,
        latest_files: files,
        latest_files_indexes: vec![],
        date_created: String::new(),
        date_modified: String::new(),
        date_released: String::new(),
        allow_mod_distribution: None,
        game_popularity_rank: 0,
        is_available: true,
        thumbs_up_count: 0,
    }
}


fn chosen(r: Result<FileSelection, MinepackError>) -> usize {
    match r {
        Ok(FileSelection::Chosen(i)) => i,
        _ => panic!("expected a chosen file"),
    }
}

#[test]
fn selection_skips_incompatible_files() {
    let m = a_mod(1, "M", "m", vec![
        file(10, "a", &["1.19.2"], &[]),
        file(11, "b", &["1.20.1", "Forge"], &[]),
        file(12, "c", &["1.20.1"], &[]),
    ]);
    assert_eq!(chosen(select_file_version(&m, "1.20.1", None, true)), 1);
    match select_file_version(&m, "1.20.1", None, false) {
        Ok(FileSelection::ChooseAmong(c)) => assert_eq!(c, vec![1, 2]),
        _ => panic!("expected a choice"),
    }
}

#[test]
fn selection_without_compatible_files_fails() {
    let m = a_mod(1, "M", "m", vec![file(10, "a", &["1.19.2"], &[])]);
    match select_file_version(&m, "1.20.1", None, true) {
        Err(MinepackError::NoCompatibleModFiles(v)) => assert_eq!(v, "1.20.1"),
        _ => panic!("expected an error"),
    }
    let empty = a_mod(2, "E", "e", vec![]);
    assert!(select_file_version(&empty, "1.20.1", Some(3), false).is_err());
}

#[test]
fn selection_prefers_requested_compatible_file() {
    let m = a_mod(1, "M", "m", vec![
        file(10, "a", &["1.20.1"], &[]),
        file(11, "b", &["1.20.1"], &[]),
    ]);
    assert_eq!(chosen(select_file_version(&m, "1.20.1", Some(11), false)), 1);
    assert_eq!(chosen(select_file_version(&m, "1.20.1", Some(99), true)), 0);
    match select_file_version(&m, "1.20.1", Some(99), false) {
        Ok(FileSelection::AskFallback(c)) => assert_eq!(c, vec![0, 1]),
        _ => panic!("expected a fallback question"),
    }
}

#[test]
fn requested_incompatible_file_is_never_chosen() {
    let m = a_mod(1, "M", "m", vec![
        file(10, "a", &["1.19.2"], &[]),
        file(11, "b", &["1.20.1"], &[]),
    ]);
    assert_eq!(chosen(select_file_version(&m, "1.20.1", Some(10), true)), 1);
}

#[test]
fn single_compatible_file_is_taken_without_asking() {
    let m = a_mod(1, "M", "m", vec![file(10, "a", &["1.20.1"], &[])]);
    assert_eq!(chosen(select_file_version(&m, "1.20.1", None, false)), 0);
    assert!(matches!(default_choice(vec![4], false), FileSelection::Chosen(4)));
    assert!(matches!(default_choice(vec![4, 5], false), FileSelection::ChooseAmong(_)));
    assert!(matches!(default_choice(vec![4, 5], true), FileSelection::Chosen(4)));
}

#[test]
fn server_pack_file_is_server_side() {
    let mut f = file(10, "optifine-client", &["Client"], &[]);
    f.is_server_pack = Some(true);
    assert_eq!(determine_mod_side_cf("OptiFine Client", &f), Ok(Side::Server));
}

#[test]
fn optifine_without_server_hints_is_client_side() {
    let f = file(10, "OptiFine_1.20.1_HD_U_I6", &["1.20.1"], &[]);
    assert_eq!(determine_mod_side_cf("OptiFine", &f), Ok(Side::Client));
}

#[test]
fn side_follows_game_version_markers() {
    let both = file(10, "x", &["1.20.1", "Client", "Server"], &[]);
    assert_eq!(determine_mod_side_cf("Shader pack", &both), Ok(Side::Both));
    let server = file(11, "x", &["1.20.1", "Server"], &[]);
    assert_eq!(determine_mod_side_cf("Texture thing", &server), Ok(Side::Server));
    let client = file(12, "x", &["CLIENT"], &[]);
    assert_eq!(determine_mod_side_cf("Anything", &client), Ok(Side::Client));
}

#[test]
fn side_follows_names_and_defaults_to_both() {
    let f = file(10, "plain", &["1.20.1"], &[]);
    assert_eq!(determine_mod_side_cf("Sodium", &f), Ok(Side::Both));
    assert_eq!(determine_mod_side_cf("Server Utilities", &f), Ok(Side::Server));
    assert_eq!(determine_mod_side_cf("Complementary Shaders", &f), Ok(Side::Client));
    let g = file(11, "tool-SERVER", &["1.20.1"], &[]);
    assert_eq!(determine_mod_side_cf("Tool", &g), Ok(Side::Server));
    let h = file(12, "tool-client", &["1.20.1"], &[]);
    assert_eq!(determine_mod_side_cf("Tool Server", &h), Ok(Side::Client));
}

#[test]
fn side_from_lowered_applies_rules_in_order() {
    let v = vec!["client".to_string()];
    assert_eq!(side_from_lowered(Some(false), &v, "server", ""), Side::Client);
    assert_eq!(side_from_lowered(None, &vec![], "resource pack", ""), Side::Client);
    assert_eq!(side_from_lowered(Some(true), &vec![], "optifine", ""), Side::Server);
}

#[test]
fn client_keywords_count_in_the_file_name_too() {
    let f = file(10, "x-shader", &["1.20.1"], &[]);
    assert_eq!(determine_mod_side_cf("x", &f), Ok(Side::Client));
    let g = file(11, "Better-Textures-Pack", &["1.20.1"], &[]);
    assert_eq!(determine_mod_side_cf("Pack", &g), Ok(Side::Client));
    assert_eq!(side_from_lowered(None, &vec![], "x", "optifine_hd.jar"), Side::Client);
    assert_eq!(side_from_lowered(None, &vec![], "x", "resource-loader.jar"), Side::Client);
}
