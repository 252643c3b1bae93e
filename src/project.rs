use vstd::prelude::*;
use crate::config::{Link, Minecraft, ModLoader, ModpackConfig, Reference, Side};
use crate::errors::MinepackError;
use crate::schema::{File, Manifest, ManifestFile, ManifestModLoader, Mod};
use crate::side::{determine_mod_side_cf, lowered_all, side_rule};
use crate::store::copy_opt_string;
use crate::text::{decimal_text, lower_of, lowercase, str_eq, u32_text};

verus! {

/// The position of the first `-` in `s`, or its length when there is none.
pub open spec fn first_dash(s: Seq<char>) -> int
    decreases s.len(),
{
    if s.len() == 0 {
        0
    } else if s[0] == '-' {
        0
    } else {
        1 + first_dash(s.drop_first())
    }
}

/// A manifest loader id split on `-`: the part before the first dash, and the
/// part between the first and the second dash (or the end); the whole id and an
/// empty version when there is no dash.
pub open spec fn loader_parts(s: Seq<char>) -> (Seq<char>, Seq<char>) {
    let i = first_dash(s);
    if i >= s.len() {
        (s, seq![])
    } else {
        let rest = s.subrange(i + 1, s.len() as int);
        (s.subrange(0, i), rest.subrange(0, first_dash(rest)))
    }
}

proof fn lemma_first_dash(s: Seq<char>, k: int)
    requires
        0 <= k <= s.len(),
        forall|j: int| 0 <= j < k ==> s[j] != '-',
        k == s.len() || s[k] == '-',
    ensures
        first_dash(s) == k,
    decreases k,
{
    if k > 0 {
        let t = s.drop_first();
        assert forall|j: int| 0 <= j < k - 1 implies t[j] != '-' by {
            assert(t[j] == s[j + 1]);
        }
        if k < s.len() {
            assert(t[k - 1] == s[k]);
        }
        lemma_first_dash(t, k - 1);
    }
}

/// The position of the first `-` in `s` from `from` on, or its length.
fn find_dash(s: &str, from: usize) -> (r: usize)
    requires
        from <= s@.len(),
    ensures
        r == from + first_dash(s@.subrange(from as int, s@.len() as int)),
        from <= r <= s@.len(),
{
    let n = s.unicode_len();
    let mut k: usize = from;
    while k < n && s.get_char(k) != '-'
        invariant
            n == s@.len(),
            from <= k <= n,
            forall|j: int| from <= j < k ==> s@[j] != '-',
        decreases n - k,
    {
        k = k + 1;
    }
    proof {
        let t = s@.subrange(from as int, s@.len() as int);
        assert forall|j: int| 0 <= j < k - from implies t[j] != '-' by {
            assert(t[j] == s@[from + j]);
        }
        if k < n {
            assert(t[k - from] == s@[k as int]);
        }
        lemma_first_dash(t, k - from);
    }
    k
}

/// Reads a mod loader of a modpack manifest (`<loader>-<version>`).
pub fn loader_from_manifest(loader: &ManifestModLoader) -> (r: ModLoader)
    ensures
        r.id@ == loader_parts(loader.id@).0,
        r.version@ == loader_parts(loader.id@).1,
        r.primary == loader.primary,
{
    let s = loader.id.as_str();
    let n = s.unicode_len();
    let i = find_dash(s, 0);
    assert(s@.subrange(0, s@.len() as int) =~= s@);
    if i >= n {
        return ModLoader { id: loader.id.clone(), version: String::new(), primary: loader.primary };
    }
    let j = find_dash(s, i + 1);
    let ghost rest = s@.subrange(i + 1, s@.len() as int);
    assert(s@.subrange(i + 1, j as int) =~= rest.subrange(0, first_dash(rest)));
    ModLoader {
        id: String::from_str(s.substring_char(0, i)),
        version: String::from_str(s.substring_char(i + 1, j)),
        primary: loader.primary,
    }
}

/// The project configuration that importing a modpack manifest gives: its
/// name, version and author, no description, its game version and loaders.
pub fn config_from_manifest(manifest: &Manifest) -> (r: ModpackConfig)
    ensures
        r.name == manifest.name,
        r.version == manifest.version,
        r.author == manifest.author,
        r.description is None,
        r.minecraft.version == manifest.minecraft.version,
        r.minecraft.mod_loaders@.len() == manifest.minecraft.mod_loaders@.len(),
        forall|i: int|
            0 <= i < r.minecraft.mod_loaders@.len() ==> {
                let l = #[trigger] r.minecraft.mod_loaders@[i];
                let m = manifest.minecraft.mod_loaders@[i];
                &&& l.id@ == loader_parts(m.id@).0
                &&& l.version@ == loader_parts(m.id@).1
                &&& l.primary == m.primary
            },
{
    let src = &manifest.minecraft.mod_loaders;
    let mut loaders: Vec<ModLoader> = Vec::new();
    let mut i: usize = 0;
    while i < src.len()
        invariant
            0 <= i <= src@.len(),
            loaders@.len() == i,
            forall|k: int|
                0 <= k < i ==> {
                    let l = #[trigger] loaders@[k];
                    &&& l.id@ == loader_parts(src@[k].id@).0
                    &&& l.version@ == loader_parts(src@[k].id@).1
                    &&& l.primary == src@[k].primary
                },
        decreases src.len() - i,
    {
        loaders.push(loader_from_manifest(&src[i]));
        i = i + 1;
    }
    ModpackConfig::new(
        manifest.name.clone(),
        manifest.version.clone(),
        manifest.author.clone(),
        None,
        Minecraft::new(manifest.minecraft.version.clone(), loaders),
    )
}

/// What the import records of one mod of a modpack manifest.
#[derive(Debug)]
pub struct ModData {
    pub project_id: u32,
    pub file_id: u32,
    pub name: String,
    pub slug: String,
    pub file_name: Option<String>,
    pub download_url: Option<String>,
    pub side: Side,
}

/// Pairs the mods of a manifest with the registry's answers for them, by
/// position: the mod's name and slug, the file's name and download location,
/// and the side classified from them. Fails when an answer is missing.
pub fn import_mod_data(
    files: &Vec<ManifestFile>,
    mod_infos: &Vec<Mod>,
    file_infos: &Vec<File>,
) -> (r: Result<Vec<ModData>, MinepackError>)
    ensures
        (files@.len() <= mod_infos@.len() && files@.len() <= file_infos@.len()) <==> r is Ok,
        r matches Ok(v) ==> v@.len() == files@.len() && forall|i: int|
            0 <= i < files@.len() ==> {
                let d = #[trigger] v@[i];
                let f = file_infos@[i];
                let m = mod_infos@[i];
                &&& d.project_id == files@[i].project_id
                &&& d.file_id == files@[i].file_id
                &&& d.name == m.name
                &&& d.slug == m.slug
                &&& d.file_name == Some(f.file_name)
                &&& d.download_url == f.download_url
                &&& d.side == side_rule(
                    f.is_server_pack == Some(true),
                    lowered_all(f.game_versions@),
                    lower_of(m.name@),
                    lower_of(f.file_name@),
                )
            },
{
    let mut out: Vec<ModData> = Vec::new();
    let mut i: usize = 0;
    while i < files.len()
        invariant
            0 <= i <= files@.len(),
            out@.len() == i,
            i <= mod_infos@.len(),
            i <= file_infos@.len(),
            forall|k: int|
                0 <= k < i ==> {
                    let d = #[trigger] out@[k];
                    let f = file_infos@[k];
                    let m = mod_infos@[k];
                    &&& d.project_id == files@[k].project_id
                    &&& d.file_id == files@[k].file_id
                    &&& d.name == m.name
                    &&& d.slug == m.slug
                    &&& d.file_name == Some(f.file_name)
                    &&& d.download_url == f.download_url
                    &&& d.side == side_rule(
                        f.is_server_pack == Some(true),
                        lowered_all(f.game_versions@),
                        lower_of(m.name@),
                        lower_of(f.file_name@),
                    )
                },
        decreases files.len() - i,
    {
        let entry = &files[i];
        if i >= mod_infos.len() {
            let mut msg = String::from_str("Failed to get mod info for project ID: ");
            msg.append(u32_text(entry.project_id).as_str());
            return Err(MinepackError::Unknown(msg));
        }
        if i >= file_infos.len() {
            let mut msg = String::from_str("Failed to get file info for file ID: ");
            msg.append(u32_text(entry.file_id).as_str());
            return Err(MinepackError::Unknown(msg));
        }
        let m = &mod_infos[i];
        let f = &file_infos[i];
        let side = determine_mod_side_cf(m.name.as_str(), f).unwrap();
        out.push(
            ModData {
                project_id: entry.project_id,
                file_id: entry.file_id,
                name: m.name.clone(),
                slug: m.slug.clone(),
                file_name: Some(f.file_name.clone()),
                download_url: copy_opt_string(&f.download_url),
                side,
            },
        );
        i = i + 1;
    }
    Ok(out)
}

/// The file name recorded for an imported mod: its file's name, or else
/// `<slug>-<file id>.jar`.
pub open spec fn import_filename_spec(d: ModData) -> Seq<char> {
    match d.file_name {
        Some(n) => n@,
        None => d.slug@ + "-"@ + decimal_text(d.file_id as nat) + ".jar"@,
    }
}

/// Creates the descriptor of an imported mod: its file name (`<slug>.ex.json`)
/// and its record.
pub fn create_mod_reference(mod_data: &ModData) -> (r: (String, Reference))
    ensures
        r.0@ == mod_data.slug@ + ".ex.json"@,
        r.1.name == mod_data.name,
        r.1.filename@ == import_filename_spec(*mod_data),
        r.1.side == mod_data.side,
        r.1.link == (Link::CurseForge {
            project_id: mod_data.project_id,
            file_id: mod_data.file_id,
            download_url: mod_data.download_url,
        }),
{
    let filename = match &mod_data.file_name {
        Some(name) => name.clone(),
        None => {
            let mut n = mod_data.slug.clone();
            n.append("-");
            n.append(u32_text(mod_data.file_id).as_str());
            n.append(".jar");
            n
        },
    };
    let mut json_name = mod_data.slug.clone();
    json_name.append(".ex.json");
    let reference = Reference {
        name: mod_data.name.clone(),
        filename,
        side: mod_data.side,
        link: Link::CurseForge {
            project_id: mod_data.project_id,
            file_id: mod_data.file_id,
            download_url: copy_opt_string(&mod_data.download_url),
        },
    };
    (json_name, reference)
}

/// The mod loader a (lowercased) name selects, if it is one of the four.
pub open spec fn loader_named(s: Seq<char>) -> bool {
    s == "forge"@ || s == "fabric"@ || s == "quilt"@ || s == "neoforge"@
}

/// Reads a mod loader name, case-insensitively: `forge`, `fabric`, `quilt` or
/// `neoforge`. Fails with `InvalidModLoader` on any other name.
pub fn normalize_loader(name: &str) -> (r: Result<String, MinepackError>)
    ensures
        loader_named(lower_of(name@)) ==> (r matches Ok(s) && s@ == lower_of(name@)),
        !loader_named(lower_of(name@)) ==> r == Err::<String, MinepackError>(
            MinepackError::InvalidModLoader,
        ),
{
    let lower = lowercase(name);
    if str_eq(lower.as_str(), "forge") || str_eq(lower.as_str(), "fabric") || str_eq(
        lower.as_str(),
        "quilt",
    ) || str_eq(lower.as_str(), "neoforge") {
        Ok(lower)
    } else {
        Err(MinepackError::InvalidModLoader)
    }
}

/// The configuration of a new project, with one primary mod loader. An empty
/// description counts as none.
pub fn init_config(
    name: String,
    version: String,
    author: String,
    description: String,
    loader_id: String,
    loader_version: String,
    minecraft_version: String,
) -> (r: ModpackConfig)
    ensures
        r.name == name,
        r.version == version,
        r.author == author,
        description@.len() == 0 ==> r.description is None,
        description@.len() > 0 ==> r.description == Some(description),
        r.minecraft.version == minecraft_version,
        r.minecraft.mod_loaders@.len() == 1,
        r.minecraft.mod_loaders@[0].id == loader_id,
        r.minecraft.mod_loaders@[0].version == loader_version,
        r.minecraft.mod_loaders@[0].primary,
{
    let description = if description.unicode_len() == 0 {
        None
    } else {
        Some(description)
    };
    let mut loaders: Vec<ModLoader> = Vec::new();
    loaders.push(ModLoader { id: loader_id, version: loader_version, primary: true });
    ModpackConfig::new(name, version, author, description, Minecraft::new(minecraft_version, loaders))
}

} // verus!
