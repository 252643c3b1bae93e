use vstd::prelude::*;
use crate::config::{ModEntry, ModpackConfig};
use crate::errors::MinepackError;
use crate::schema::{Manifest, ManifestFile, ManifestMinecraft, ManifestModLoader};
use crate::text::{decimal_text, lower_of, lowercase, str_eq, u32_text};

verus! {

/// The package formats a project can be exported to.
#[derive(Debug, Clone, Copy, PartialEq, Eq, Structural)]
pub enum ExportFormat {
    MultiMC,
    CurseForge,
    Modrinth,
}

/// The format named by a (lowercased) format name, if any.
pub open spec fn format_named(s: Seq<char>) -> Option<ExportFormat> {
    if s == "multimc"@ {
        Some(ExportFormat::MultiMC)
    } else if s == "curseforge"@ {
        Some(ExportFormat::CurseForge)
    } else if s == "modrinth"@ {
        Some(ExportFormat::Modrinth)
    } else {
        None
    }
}

/// Reads an export format name, case-insensitively. Fails with
/// `InvalidExportFormat` on any other name.
pub fn parse_export_format(name: &str) -> (r: Result<ExportFormat, MinepackError>)
    ensures
        match format_named(lower_of(name@)) {
            Some(f) => r == Ok::<ExportFormat, MinepackError>(f),
            None => r == Err::<ExportFormat, MinepackError>(MinepackError::InvalidExportFormat),
        },
{
    let lower = lowercase(name);
    if str_eq(lower.as_str(), "multimc") {
        Ok(ExportFormat::MultiMC)
    } else if str_eq(lower.as_str(), "curseforge") {
        Ok(ExportFormat::CurseForge)
    } else if str_eq(lower.as_str(), "modrinth") {
        Ok(ExportFormat::Modrinth)
    } else {
        Err(MinepackError::InvalidExportFormat)
    }
}

/// The download location of a file on the CDN, from its file id and file name.
pub open spec fn cdn_url(file_id: u32, filename: Seq<char>) -> Seq<char> {
    "https://edge.forgecdn.net/files/"@ + decimal_text((file_id / 1000) as nat) + "/"@
        + decimal_text((file_id % 1000) as nat) + "/"@ + filename
}

/// Builds the download location of a file on the CDN.
pub fn cdn_download_url(file_id: u32, filename: &str) -> (r: String)
    ensures
        r@ == cdn_url(file_id, filename@),
{
    let mut r = String::from_str("https://edge.forgecdn.net/files/");
    r.append(u32_text(file_id / 1000).as_str());
    r.append("/");
    r.append(u32_text(file_id % 1000).as_str());
    r.append("/");
    r.append(filename);
    r
}

/// The mod entry of a descriptor, from the fields read from it: a missing name
/// or file name reads `Unknown`, a missing id reads 0, ids are cut to 32 bits;
/// the file name stands as the version, and the entry is required.
pub fn mod_entry_from_fields(
    name: Option<&str>,
    filename: Option<&str>,
    project_id: Option<u64>,
    file_id: Option<u64>,
) -> (r: ModEntry)
    ensures
        r.name@ == match name {
            Some(n) => n@,
            None => "Unknown"@,
        },
        r.version@ == match filename {
            Some(f) => f@,
            None => "Unknown"@,
        },
        r.project_id == match project_id {
            Some(p) => p as u32,
            None => 0u32,
        },
        r.file_id == match file_id {
            Some(f) => f as u32,
            None => 0u32,
        },
        r.download_url@ == cdn_url(r.file_id, r.version@),
        r.required,
{
    let name = match name {
        Some(n) => String::from_str(n),
        None => String::from_str("Unknown"),
    };
    let filename = match filename {
        Some(f) => String::from_str(f),
        None => String::from_str("Unknown"),
    };
    let project_id: u32 = match project_id {
        Some(p) => p as u32,
        None => 0,
    };
    let file_id: u32 = match file_id {
        Some(f) => f as u32,
        None => 0,
    };
    let download_url = cdn_download_url(file_id, filename.as_str());
    ModEntry { name, project_id, file_id, version: filename, download_url, required: true }
}

/// The loader id of a CurseForge manifest: `<loader>-<version>`.
pub open spec fn manifest_loader_id(id: Seq<char>, version: Seq<char>) -> Seq<char> {
    id + "-"@ + version
}

/// Builds the manifest of a CurseForge package: the project's game version,
/// its first mod loader, and one required-or-not file per mod entry.
pub fn curseforge_manifest(config: &ModpackConfig, mod_entries: &Vec<ModEntry>) -> (r: Manifest)
    requires
        config.minecraft.mod_loaders@.len() > 0,
    ensures
        r.minecraft.version == config.minecraft.version,
        r.minecraft.mod_loaders@.len() == 1,
        r.minecraft.mod_loaders@[0].id@ == manifest_loader_id(
            config.minecraft.mod_loaders@[0].id@,
            config.minecraft.mod_loaders@[0].version@,
        ),
        r.minecraft.mod_loaders@[0].primary == config.minecraft.mod_loaders@[0].primary,
        r.manifest_type@ == "minecraftModpack"@,
        r.manifest_version == 1,
        r.name == config.name,
        r.version == config.version,
        r.author == config.author,
        r.files@.len() == mod_entries@.len(),
        forall|i: int|
            0 <= i < mod_entries@.len() ==> (#[trigger] r.files@[i]).project_id
                == mod_entries@[i].project_id && r.files@[i].file_id == mod_entries@[i].file_id
                && r.files@[i].required == mod_entries@[i].required,
        r.overrides@ == "overrides"@,
{
    let loader = &config.minecraft.mod_loaders[0];
    let mut loader_id = loader.id.clone();
    loader_id.append("-");
    loader_id.append(loader.version.as_str());
    let mut loaders: Vec<ManifestModLoader> = Vec::new();
    loaders.push(ManifestModLoader { id: loader_id, primary: loader.primary });
    let mut files: Vec<ManifestFile> = Vec::new();
    let mut i: usize = 0;
    while i < mod_entries.len()
        invariant
            0 <= i <= mod_entries@.len(),
            files@.len() == i,
            forall|j: int|
                0 <= j < i ==> (#[trigger] files@[j]).project_id == mod_entries@[j].project_id
                    && files@[j].file_id == mod_entries@[j].file_id && files@[j].required
                    == mod_entries@[j].required,
        decreases mod_entries.len() - i,
    {
        let e = &mod_entries[i];
        files.push(ManifestFile { project_id: e.project_id, file_id: e.file_id, required: e.required });
        i = i + 1;
    }
    Manifest {
        minecraft: ManifestMinecraft { version: config.minecraft.version.clone(), mod_loaders: loaders },
        manifest_type: String::from_str("minecraftModpack"),
        manifest_version: 1,
        name: config.name.clone(),
        version: config.version.clone(),
        author: config.author.clone(),
        files,
        overrides: String::from_str("overrides"),
    }
}

/// The file name of an exported package.
pub open spec fn package_file_name_spec(name: Seq<char>, version: Seq<char>, format: ExportFormat) -> Seq<char> {
    match format {
        ExportFormat::MultiMC => name + "-"@ + version + "-MultiMC.zip"@,
        ExportFormat::CurseForge => name + "-"@ + version + "-CurseForge.zip"@,
        ExportFormat::Modrinth => name + "-"@ + version + ".mrpack"@,
    }
}

/// The file name of the package that exporting a project in a format produces.
pub fn package_file_name(config: &ModpackConfig, format: ExportFormat) -> (r: String)
    ensures
        r@ == package_file_name_spec(config.name@, config.version@, format),
{
    let mut r = config.name.clone();
    r.append("-");
    r.append(config.version.as_str());
    match format {
        ExportFormat::MultiMC => r.append("-MultiMC.zip"),
        ExportFormat::CurseForge => r.append("-CurseForge.zip"),
        ExportFormat::Modrinth => r.append(".mrpack"),
    }
    r
}

/// The component id of a mod loader in a MultiMC instance.
pub open spec fn multimc_loader_uid_spec(id: Seq<char>) -> Seq<char> {
    if id == "forge"@ {
        "net.minecraftforge"@
    } else if id == "fabric"@ {
        "net.fabricmc.fabric-loader"@
    } else if id == "quilt"@ {
        "org.quiltmc.quilt-loader"@
    } else if id == "neoforge"@ {
        "net.neoforged"@
    } else {
        "unknown"@
    }
}

/// The component id of a mod loader in a MultiMC instance.
pub fn multimc_loader_uid(id: &str) -> (r: String)
    ensures
        r@ == multimc_loader_uid_spec(id@),
{
    if str_eq(id, "forge") {
        String::from_str("net.minecraftforge")
    } else if str_eq(id, "fabric") {
        String::from_str("net.fabricmc.fabric-loader")
    } else if str_eq(id, "quilt") {
        String::from_str("org.quiltmc.quilt-loader")
    } else if str_eq(id, "neoforge") {
        String::from_str("net.neoforged")
    } else {
        String::from_str("unknown")
    }
}

/// The `instance.cfg` of a MultiMC instance.
pub open spec fn instance_cfg_spec(name: Seq<char>, game_version: Seq<char>) -> Seq<char> {
    "InstanceType=OneSix\nname="@ + name + "\nIntendedVersion="@ + game_version + "\n"@
}

/// Writes the `instance.cfg` of a project's MultiMC instance.
pub fn instance_cfg(config: &ModpackConfig) -> (r: String)
    ensures
        r@ == instance_cfg_spec(config.name@, config.minecraft.version@),
{
    let mut r = String::from_str("InstanceType=OneSix\nname=");
    r.append(config.name.as_str());
    r.append("\nIntendedVersion=");
    r.append(config.minecraft.version.as_str());
    r.append("\n");
    r
}

/// The `mmc-pack.json` of a MultiMC instance: the game and the loader component.
pub open spec fn mmc_pack_spec(game_version: Seq<char>, uid: Seq<char>, loader_version: Seq<char>) -> Seq<char> {
    "{\n        \"components\": [\n            {\n                \"uid\": \"net.minecraft\",\n                \"version\": \""@
        + game_version + "\"\n            },\n            {\n                \"uid\": \""@ + uid
        + "\",\n                \"version\": \""@ + loader_version
        + "\"\n            }\n        ]\n    }"@
}

/// Writes the `mmc-pack.json` of a project's MultiMC instance, from its first
/// mod loader.
pub fn mmc_pack_json(config: &ModpackConfig) -> (r: String)
    requires
        config.minecraft.mod_loaders@.len() > 0,
    ensures
        r@ == mmc_pack_spec(
            config.minecraft.version@,
            multimc_loader_uid_spec(config.minecraft.mod_loaders@[0].id@),
            config.minecraft.mod_loaders@[0].version@,
        ),
{
    let loader = &config.minecraft.mod_loaders[0];
    let uid = multimc_loader_uid(loader.id.as_str());
    let mut r = String::from_str(
        "{\n        \"components\": [\n            {\n                \"uid\": \"net.minecraft\",\n                \"version\": \"",
    );
    r.append(config.minecraft.version.as_str());
    r.append("\"\n            },\n            {\n                \"uid\": \"");
    r.append(uid.as_str());
    r.append("\",\n                \"version\": \"");
    r.append(loader.version.as_str());
    r.append("\"\n            }\n        ]\n    }");
    r
}

/// One file entry of a Modrinth index; all but the last end in a comma.
pub open spec fn modrinth_entry(e: ModEntry, last: bool) -> Seq<char> {
    "    {\n      \"path\": \"mods/"@ + e.version@ + "\",\n      \"hashes\": {},\n      \"downloads\": [\""@
        + e.download_url@ + "\"],\n      \"fileSize\": 0\n    }"@ + (if last {
        ""@
    } else {
        ","@
    }) + "\n"@
}

/// The file entries of the first `k` mod entries of `es`.
pub open spec fn modrinth_entries(es: Seq<ModEntry>, k: nat) -> Seq<char>
    decreases k,
{
    if k == 0 || k > es.len() {
        seq![]
    } else {
        modrinth_entries(es, (k - 1) as nat) + modrinth_entry(es[k - 1], k == es.len())
    }
}

/// The `modrinth.index.json` of a project: its version and name, its
/// description as summary when it has one, a file entry per mod entry (path
/// from the file name, the download location), and the game and first mod
/// loader as dependencies.
pub open spec fn modrinth_index_spec(c: ModpackConfig, es: Seq<ModEntry>) -> Seq<char> {
    "{\n  \"formatVersion\": 1,\n  \"game\": \"minecraft\",\n  \"versionId\": \""@ + c.version@
        + "\",\n  \"name\": \""@ + c.name@ + "\",\n"@ + (match c.description {
        Some(d) => "  \"summary\": \""@ + d@ + "\",\n"@,
        None => ""@,
    }) + "  \"files\": [\n"@ + modrinth_entries(es, es.len()) + "  ],\n  \"dependencies\": {\n    \"minecraft\": \""@
        + c.minecraft.version@ + "\",\n    \""@ + c.minecraft.mod_loaders@[0].id@ + "\": \""@
        + c.minecraft.mod_loaders@[0].version@ + "\"\n  }\n}\n"@
}

fn modrinth_entry_text(e: &ModEntry, last: bool) -> (r: String)
    ensures
        r@ == modrinth_entry(*e, last),
{
    let mut r = String::from_str("    {\n      \"path\": \"mods/");
    r.append(e.version.as_str());
    r.append("\",\n      \"hashes\": {},\n      \"downloads\": [\"");
    r.append(e.download_url.as_str());
    r.append("\"],\n      \"fileSize\": 0\n    }");
    if last {
        r.append("");
    } else {
        r.append(",");
    }
    r.append("\n");
    r
}

/// Writes the `modrinth.index.json` of a project.
pub fn modrinth_index(config: &ModpackConfig, mod_entries: &Vec<ModEntry>) -> (r: String)
    requires
        config.minecraft.mod_loaders@.len() > 0,
    ensures
        r@ == modrinth_index_spec(*config, mod_entries@),
{
    let loader = &config.minecraft.mod_loaders[0];
    let mut r = String::from_str("{\n  \"formatVersion\": 1,\n  \"game\": \"minecraft\",\n  \"versionId\": \"");
    r.append(config.version.as_str());
    r.append("\",\n  \"name\": \"");
    r.append(config.name.as_str());
    r.append("\",\n");
    match &config.description {
        Some(d) => {
            let mut summary = String::from_str("  \"summary\": \"");
            summary.append(d.as_str());
            summary.append("\",\n");
            r.append(summary.as_str());
        },
        None => {
            r.append("");
        },
    }
    r.append("  \"files\": [\n");
    let ghost head = r@;
    let n = mod_entries.len();
    let mut i: usize = 0;
    while i < n
        invariant
            n == mod_entries@.len(),
            0 <= i <= n,
            r@ == head + modrinth_entries(mod_entries@, i as nat),
        decreases n - i,
    {
        let entry = modrinth_entry_text(&mod_entries[i], i + 1 == n);
        r.append(entry.as_str());
        assert(r@ =~= head + modrinth_entries(mod_entries@, (i + 1) as nat));
        i = i + 1;
    }
    r.append("  ],\n  \"dependencies\": {\n    \"minecraft\": \"");
    r.append(config.minecraft.version.as_str());
    r.append("\",\n    \"");
    r.append(loader.id.as_str());
    r.append("\": \"");
    r.append(loader.version.as_str());
    r.append("\"\n  }\n}\n");
    r
}

} // verus!
