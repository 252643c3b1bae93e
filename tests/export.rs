use minepack::config::{Minecraft, ModEntry, ModLoader, ModpackConfig};
use minepack::errors::MinepackError;
use minepack::export::{
    cdn_download_url, curseforge_manifest, instance_cfg, mmc_pack_json, mod_entry_from_fields,
    modrinth_index, multimc_loader_uid, package_file_name, parse_export_format, ExportFormat,
};

fn config(description: Option<&str>) -> ModpackConfig {
    ModpackConfig::new(
        "Test Modpack".to_string(),
        "1.0.0".to_string(),
        "Test Author".to_string(),
        description.map(|d| d.to_string()),
        Minecraft::new(
            "1.20.1".to_string(),
            vec![ModLoader { id: "fabric".to_string(), version: "0.14.21".to_string(), primary: true }],
        ),
    )
}

#[test]
fn export_format_names() {
    assert_eq!(parse_export_format("CurseForge"), Ok(ExportFormat::CurseForge));
    assert_eq!(parse_export_format("multimc"), Ok(ExportFormat::MultiMC));
    assert_eq!(parse_export_format("MODRINTH"), Ok(ExportFormat::Modrinth));
    assert_eq!(parse_export_format("zip"), Err(MinepackError::InvalidExportFormat));
}

#[test]
fn mod_entry_defaults_and_cdn_url() {
    let e = mod_entry_from_fields(Some("Test Mod"), Some("test-mod-1.0.0.jar"), Some(123), Some(4567890));
    assert_eq!(e.name, "Test Mod");
    assert_eq!(e.version, "test-mod-1.0.0.jar");
    assert_eq!(e.project_id, 123);
    assert_eq!(e.file_id, 4567890);
    assert_eq!(e.download_url, "https://edge.forgecdn.net/files/4567/890/test-mod-1.0.0.jar");
    assert!(e.required);
    let d = mod_entry_from_fields(None, None, None, None);
    assert_eq!(d.name, "Unknown");
    assert_eq!(d.version, "Unknown");
    assert_eq!(d.download_url, "https://edge.forgecdn.net/files/0/0/Unknown");
    let t = mod_entry_from_fields(None, None, Some(0x1_0000_0005), None);
    assert_eq!(t.project_id, 5);
    assert_eq!(cdn_download_url(1005, "a.jar"), "https://edge.forgecdn.net/files/1/5/a.jar");
}

#[test]
fn curseforge_manifest_lists_loader_and_files() {
    let entries = vec![mod_entry_from_fields(Some("A"), Some("a.jar"), Some(1), Some(2))];
    let m = curseforge_manifest(&config(None), &entries);
    assert_eq!(m.minecraft.version, "1.20.1");
    assert_eq!(m.minecraft.mod_loaders.len(), 1);
    assert_eq!(m.minecraft.mod_loaders[0].id, "fabric-0.14.21");
    assert!(m.minecraft.mod_loaders[0].primary);
    assert_eq!(m.manifest_type, "minecraftModpack");
    assert_eq!(m.manifest_version, 1);
    assert_eq!(m.name, "Test Modpack");
    assert_eq!(m.files.len(), 1);
    assert_eq!((m.files[0].project_id, m.files[0].file_id, m.files[0].required), (1, 2, true));
    assert_eq!(m.overrides, "overrides");
}

#[test]
fn package_names_per_format() {
    let c = config(None);
    assert_eq!(package_file_name(&c, ExportFormat::CurseForge), "Test Modpack-1.0.0-CurseForge.zip");
    assert_eq!(package_file_name(&c, ExportFormat::MultiMC), "Test Modpack-1.0.0-MultiMC.zip");
    assert_eq!(package_file_name(&c, ExportFormat::Modrinth), "Test Modpack-1.0.0.mrpack");
}

#[test]
fn multimc_files() {
    let c = config(None);
    assert_eq!(instance_cfg(&c), "InstanceType=OneSix\nname=Test Modpack\nIntendedVersion=1.20.1\n");
    assert_eq!(multimc_loader_uid("forge"), "net.minecraftforge");
    assert_eq!(multimc_loader_uid("quilt"), "org.quiltmc.quilt-loader");
    assert_eq!(multimc_loader_uid("neoforge"), "net.neoforged");
    assert_eq!(multimc_loader_uid("rift"), "unknown");
    let expected = "{\n        \"components\": [\n            {\n                \"uid\": \"net.minecraft\",\n                \"version\": \"1.20.1\"\n            },\n            {\n                \"uid\": \"net.fabricmc.fabric-loader\",\n                \"version\": \"0.14.21\"\n            }\n        ]\n    }";
    assert_eq!(mmc_pack_json(&c), expected);
}

#[test]
fn modrinth_index_text() {
    let entries: Vec<ModEntry> = vec![
        mod_entry_from_fields(Some("A"), Some("a.jar"), Some(1), Some(1002)),
        mod_entry_from_fields(Some("B"), Some("b.jar"), Some(3), Some(4)),
    ];
    let text = modrinth_index(&config(Some("A test modpack")), &entries);
    let expected = "{\n  \"formatVersion\": 1,\n  \"game\": \"minecraft\",\n  \"versionId\": \"1.0.0\",\n  \"name\": \"Test Modpack\",\n  \"summary\": \"A test modpack\",\n  \"files\": [\n    {\n      \"path\": \"mods/a.jar\",\n      \"hashes\": {},\n      \"downloads\": [\"https://edge.forgecdn.net/files/1/2/a.jar\"],\n      \"fileSize\": 0\n    },\n    {\n      \"path\": \"mods/b.jar\",\n      \"hashes\": {},\n      \"downloads\": [\"https://edge.forgecdn.net/files/0/4/b.jar\"],\n      \"fileSize\": 0\n    }\n  ],\n  \"dependencies\": {\n    \"minecraft\": \"1.20.1\",\n    \"fabric\": \"0.14.21\"\n  }\n}\n";
    assert_eq!(text, expected);
    let empty = modrinth_index(&config(None), &vec![]);
    assert!(empty.contains("  \"files\": [\n  ],\n"));
    assert!(!empty.contains("summary"));
}
