use minepack::config::Side;
use minepack::errors::MinepackError;
use minepack::project::{
    config_from_manifest, create_mod_reference, import_mod_data, init_config, loader_from_manifest,
    normalize_loader, ModData,
};
use minepack::schema::{Manifest, ManifestFile, ManifestMinecraft, ManifestModLoader};

fn manifest() -> Manifest {
    Manifest {
        minecraft: ManifestMinecraft {
            version: "1.19.2".to_string(),
            mod_loaders: vec![ManifestModLoader { id: "forge-43.2.0".to_string(), primary: true }],
        },
        manifest_type: "minecraftModpack".to_string(),
        manifest_version: 1,
        name: "Test Import Modpack".to_string(),
        version: "1.0.0".to_string(),
        author: "Test Author".to_string(),
        files: vec![ManifestFile { project_id: 1030830, file_id: 6332315, required: true }],
        overrides: "overrides".to_string(),
    }
}

#[test]
fn imported_config_splits_loader_ids() {
    let c = config_from_manifest(&manifest());
    assert_eq!(c.name, "Test Import Modpack");
    assert_eq!(c.version, "1.0.0");
    assert_eq!(c.author, "Test Author");
    assert_eq!(c.description, None);
    assert_eq!(c.minecraft.version, "1.19.2");
    assert_eq!(c.minecraft.mod_loaders[0].id, "forge");
    assert_eq!(c.minecraft.mod_loaders[0].version, "43.2.0");
    assert!(c.minecraft.mod_loaders[0].primary);
}

#[test]
fn loader_ids_without_or_with_several_dashes() {
    let plain = loader_from_manifest(&ManifestModLoader { id: "fabric".to_string(), primary: false });
    assert_eq!((plain.id.as_str(), plain.version.as_str(), plain.primary), ("fabric", "", false));
    let many = loader_from_manifest(&ManifestModLoader { id: "neoforge-21.1-beta".to_string(), primary: true });
    assert_eq!((many.id.as_str(), many.version.as_str()), ("neoforge", "21.1"));
    let trailing = loader_from_manifest(&ManifestModLoader { id: "quilt-".to_string(), primary: true });
    assert_eq!((trailing.id.as_str(), trailing.version.as_str()), ("quilt", ""));
}

#[test]
fn import_reference_falls_back_to_slug_and_file_id() {
    let data = ModData {
        project_id: 1030830,
        file_id: 6332315,
        name: "Oritech".to_string(),
        slug: "oritech".to_string(),
        file_name: None,
        download_url: None,
        side: Side::Both,
    };
    let (json_name, r) = create_mod_reference(&data);
    assert_eq!(json_name, "oritech.ex.json");
    assert_eq!(r.filename, "oritech-6332315.jar");
    assert_eq!(r.name, "Oritech");
    assert_eq!(r.link.project_id(), 1030830);
}

#[test]
fn import_pairs_answers_by_position_and_fails_when_missing() {
    let m = manifest();
    match import_mod_data(&m.files, &vec![], &vec![]) {
        Err(MinepackError::Unknown(msg)) => assert!(msg.ends_with("1030830")),
        _ => panic!("expected a missing answer"),
    }
    let ok = import_mod_data(&vec![], &vec![], &vec![]).unwrap();
    assert!(ok.is_empty());
}

#[test]
fn loader_names_are_checked() {
    assert_eq!(normalize_loader("Forge"), Ok("forge".to_string()));
    assert_eq!(normalize_loader("NeoForge"), Ok("neoforge".to_string()));
    assert_eq!(normalize_loader("rift"), Err(MinepackError::InvalidModLoader));
}

#[test]
fn init_config_from_answers() {
    let c = init_config(
        "Test Modpack".to_string(),
        "1.0.0".to_string(),
        "Test Author".to_string(),
        "".to_string(),
        "forge".to_string(),
        "1.21.1-71.0.14".to_string(),
        "1.21.1".to_string(),
    );
    assert_eq!(c.description, None);
    assert_eq!(c.minecraft.mod_loaders.len(), 1);
    assert_eq!(c.minecraft.mod_loaders[0].version, "1.21.1-71.0.14");
    assert!(c.minecraft.mod_loaders[0].primary);
    let d = init_config(
        "N".to_string(), "1".to_string(), "A".to_string(), "A test modpack".to_string(),
        "fabric".to_string(), "0.15.1".to_string(), "1.21.1".to_string(),
    );
    assert_eq!(d.description.as_deref(), Some("A test modpack"));
}
