use vstd::prelude::*;

verus! {

/// A mod as an older registry response describes it.
#[derive(Debug, Clone)]
pub struct ModInfo {
    pub id: u32,
    pub name: String,
    pub slug: String,
    pub summary: String,
    pub download_count: u64,
    pub latest_files: Vec<ModFile>,
    pub game_version_latest_files: Vec<GameVersionFile>,
}

/// A file of a mod, in the older response shape.
#[derive(Debug, Clone)]
pub struct ModFile {
    pub id: u32,
    pub display_name: String,
    pub file_name: String,
    pub file_date: String,
    pub download_url: String,
    pub game_versions: Vec<String>,
}

/// The latest file of a mod for one game version.
#[derive(Debug, Clone)]
pub struct GameVersionFile {
    pub game_version: String,
    pub file_id: u32,
}

/// A search result list from the registry.
#[derive(Debug, Clone)]
pub struct SearchResult {
    pub data: Vec<ModInfo>,
}

/// The response for a single mod.
#[derive(Debug, Clone)]
pub struct ModResponse {
    pub data: ModInfo,
}

} // verus!
