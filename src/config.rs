use vstd::prelude::*;

verus! {

/// Project-level metadata stored in the project manifest.
#[derive(Debug)]
pub struct ModpackConfig {
    pub name: String,
    pub version: String,
    pub author: String,
    pub description: Option<String>,
    pub minecraft: Minecraft,
}

/// The target game version and the mod loaders of a project.
#[derive(Debug, Clone)]
pub struct Minecraft {
    pub version: String,
    pub mod_loaders: Vec<ModLoader>,
}

impl Minecraft {
    pub fn new(version: String, mod_loaders: Vec<ModLoader>) -> (r: Self)
        ensures
            r.version == version,
            r.mod_loaders == mod_loaders,
    {
        Self { version, mod_loaders }
    }
}

/// One mod loader of a project: its id (`forge`, `fabric`, ...), its version, and
/// whether it is the primary one.
#[derive(Debug, Clone)]
pub struct ModLoader {
    pub id: String,
    pub version: String,
    pub primary: bool,
}

/// A flattened view of one installed mod, as the export step reads it.
#[derive(Debug)]
pub struct ModEntry {
    pub name: String,
    pub project_id: u32,
    pub file_id: u32,
    pub version: String,
    pub download_url: String,
    pub required: bool,
}

/// The persisted descriptor of one installed mod.
#[derive(Debug, Clone)]
pub struct Reference {
    pub name: String,
    pub filename: String,
    pub side: Side,
    pub link: Link,
}

/// Which game installations need a mod.
#[derive(Debug, Clone, Copy, PartialEq, Eq, Structural)]
pub enum Side {
    Both,
    Client,
    Server,
}

/// Where a referenced mod comes from.
#[derive(Debug, Clone)]
pub enum Link {
    CurseForge { project_id: u32, file_id: u32, download_url: Option<String> },
}

impl Link {
    pub open spec fn spec_project_id(&self) -> u32 {
        match self {
            Link::CurseForge { project_id, .. } => *project_id,
        }
    }

    pub fn project_id(&self) -> (r: u32)
        ensures
            r == self.spec_project_id(),
    {
        match self {
            Link::CurseForge { project_id, .. } => *project_id,
        }
    }
}

/// Settings specific to the CurseForge site (none so far).
#[derive(Debug, Clone)]
pub struct Curseforge {}

impl ModpackConfig {
    pub fn new(
        name: String,
        version: String,
        author: String,
        description: Option<String>,
        minecraft: Minecraft,
    ) -> (r: Self)
        ensures
            r.name == name,
            r.version == version,
            r.author == author,
            r.description == description,
            r.minecraft == minecraft,
    {
        Self { name, version, author, description, minecraft }
    }
}

} // verus!
