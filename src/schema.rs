use vstd::prelude::*;

verus! {

/// Response of the "get mods by ids" endpoint.
#[derive(Debug, Clone)]
pub struct GetModsResponse {
    pub data: Vec<Mod>,
}

/// Body of the "get mods by ids" request.
#[derive(Debug, Clone)]
pub struct GetModsByIdsListRequestBody {
    pub mod_ids: Vec<u32>,
    pub filter_pc_only: bool,
}

/// Response of the "get mod" endpoint.
#[derive(Debug, Clone)]
pub struct GetModResponse {
    pub data: Mod,
}

/// Parameters of the mod search endpoint; every one is optional.
#[derive(Debug, Clone, Default)]
pub struct SearchModsRequestQuery {
    pub game_id: Option<u32>,
    pub class_id: Option<u32>,
    pub category_id: Option<u32>,
    pub category_ids: Option<Vec<u32>>,
    pub game_version: Option<String>,
    pub game_versions: Option<Vec<String>>,
    pub search_filter: Option<String>,
    pub sort_field: Option<ModsSearchSortField>,
    pub sort_order: Option<SortOrder>,
    pub mod_loader_type: Option<ModLoaderType>,
    pub game_version_type_id: Option<u32>,
    pub author_id: Option<u32>,
    pub primary_author_id: Option<u32>,
    pub slug: Option<String>,
    /// A zero based index of the first item to include in the response, the limit is: (index + pageSize <= 10,000).
    pub index: Option<u32>,
    /// The number of items to include in the response, the default/maximum value is 50.
    pub page_size: Option<u32>,
}

/// The field by which search results are sorted.
#[derive(Debug, Clone, Copy, PartialEq, Eq, Structural)]
pub enum ModsSearchSortField {
    Featured,
    Popularity,
    LastUpdated,
    Name,
    Author,
    TotalDownloads,
    Category,
    GameVersion,
    EarlyAccess,
    FeaturedReleased,
    ReleasedDate,
    Rating,
}

impl ModsSearchSortField {
    /// The numeric code of each sort field; unknown codes mean `Featured`.
    pub open spec fn spec_from_code(val: u32) -> Self {
        if val == 2 {
            ModsSearchSortField::Popularity
        } else if val == 3 {
            ModsSearchSortField::LastUpdated
        } else if val == 4 {
            ModsSearchSortField::Name
        } else if val == 5 {
            ModsSearchSortField::Author
        } else if val == 6 {
            ModsSearchSortField::TotalDownloads
        } else if val == 7 {
            ModsSearchSortField::Category
        } else if val == 8 {
            ModsSearchSortField::GameVersion
        } else if val == 9 {
            ModsSearchSortField::EarlyAccess
        } else if val == 10 {
            ModsSearchSortField::FeaturedReleased
        } else if val == 11 {
            ModsSearchSortField::ReleasedDate
        } else if val == 12 {
            ModsSearchSortField::Rating
        } else {
            ModsSearchSortField::Featured
        }
    }

    pub open spec fn spec_code(self) -> u32 {
        match self {
            ModsSearchSortField::Featured => 1,
            ModsSearchSortField::Popularity => 2,
            ModsSearchSortField::LastUpdated => 3,
            ModsSearchSortField::Name => 4,
            ModsSearchSortField::Author => 5,
            ModsSearchSortField::TotalDownloads => 6,
            ModsSearchSortField::Category => 7,
            ModsSearchSortField::GameVersion => 8,
            ModsSearchSortField::EarlyAccess => 9,
            ModsSearchSortField::FeaturedReleased => 10,
            ModsSearchSortField::ReleasedDate => 11,
            ModsSearchSortField::Rating => 12,
        }
    }

    pub fn code(&self) -> (r: u32)
        ensures
            r == self.spec_code(),
    {
        match self {
            ModsSearchSortField::Featured => 1,
            ModsSearchSortField::Popularity => 2,
            ModsSearchSortField::LastUpdated => 3,
            ModsSearchSortField::Name => 4,
            ModsSearchSortField::Author => 5,
            ModsSearchSortField::TotalDownloads => 6,
            ModsSearchSortField::Category => 7,
            ModsSearchSortField::GameVersion => 8,
            ModsSearchSortField::EarlyAccess => 9,
            ModsSearchSortField::FeaturedReleased => 10,
            ModsSearchSortField::ReleasedDate => 11,
            ModsSearchSortField::Rating => 12,
        }
    }
}

impl From<u32> for ModsSearchSortField {
    fn from(val: u32) -> (r: Self) {
        match val {
            1 => ModsSearchSortField::Featured,
            2 => ModsSearchSortField::Popularity,
            3 => ModsSearchSortField::LastUpdated,
            4 => ModsSearchSortField::Name,
            5 => ModsSearchSortField::Author,
            6 => ModsSearchSortField::TotalDownloads,
            7 => ModsSearchSortField::Category,
            8 => ModsSearchSortField::GameVersion,
            9 => ModsSearchSortField::EarlyAccess,
            10 => ModsSearchSortField::FeaturedReleased,
            11 => ModsSearchSortField::ReleasedDate,
            12 => ModsSearchSortField::Rating,
            _ => ModsSearchSortField::Featured,
        }
    }
}

impl vstd::std_specs::convert::FromSpecImpl<u32> for ModsSearchSortField {
    open spec fn obeys_from_spec() -> bool {
        true
    }

    open spec fn from_spec(v: u32) -> Self {
        ModsSearchSortField::spec_from_code(v)
    }
}

impl From<ModsSearchSortField> for u32 {
    fn from(order: ModsSearchSortField) -> (r: u32) {
        order.code()
    }
}

impl vstd::std_specs::convert::FromSpecImpl<ModsSearchSortField> for u32 {
    open spec fn obeys_from_spec() -> bool {
        true
    }

    open spec fn from_spec(v: ModsSearchSortField) -> u32 {
        v.spec_code()
    }
}

/// The direction in which search results are sorted.
#[derive(Debug, Clone, Copy, PartialEq, Eq, Structural)]
pub enum SortOrder {
    Ascending,
    Descending,
}

impl SortOrder {
    /// The query-string text of each order.
    pub open spec fn spec_text(self) -> Seq<char> {
        match self {
            SortOrder::Ascending => "asc"@,
            SortOrder::Descending => "desc"@,
        }
    }

    /// Reads `asc` or `desc`; anything else is refused.
    pub fn parse(s: &str) -> (r: Result<SortOrder, ()>)
        ensures
            s@ == "asc"@ ==> r == Ok::<SortOrder, ()>(SortOrder::Ascending),
            s@ == "desc"@ ==> r == Ok::<SortOrder, ()>(SortOrder::Descending),
            s@ != "asc"@ && s@ != "desc"@ ==> r is Err,
    {
        proof {
            reveal_strlit("asc");
            reveal_strlit("desc");
            assert("asc"@.len() != "desc"@.len());
        }
        if crate::text::str_eq(s, "asc") {
            Ok(SortOrder::Ascending)
        } else if crate::text::str_eq(s, "desc") {
            Ok(SortOrder::Descending)
        } else {
            Err(())
        }
    }

    /// The query-string text of the order.
    pub fn to_string(&self) -> (r: String)
        ensures
            r@ == self.spec_text(),
    {
        match self {
            SortOrder::Ascending => String::from_str("asc"),
            SortOrder::Descending => String::from_str("desc"),
        }
    }
}

impl std::str::FromStr for SortOrder {
    type Err = ();

    fn from_str(s: &str) -> Result<Self, Self::Err> {
        SortOrder::parse(s)
    }
}

/// Response of the mod search endpoint.
#[derive(Debug, Clone)]
pub struct SearchModsResponse {
    pub data: Vec<Mod>,
    pub pagination: Pagination,
}

/// Response of the download-url endpoint.
#[derive(Debug, Clone)]
pub struct GetDownloadUrlResponse {
    pub data: Option<String>,
}

/// A mod (project) as the registry describes it.
#[derive(Debug, Clone)]
pub struct Mod {
    pub id: u32,
    pub game_id: u32,
    pub name: String,
    pub slug: String,
    pub links: ModLinks,
    pub summary: String,
    pub status: ModStatus,
    pub download_count: u64,
    pub is_featured: bool,
    pub primary_category_id: u32,
    pub categories: Vec<Category>,
    pub class_id: Option<u32>,
    pub authors: Vec<ModAuthor>,
    pub logo: Option<ModAsset>,
    pub screenshots: Vec<ModAsset>,
    pub main_file_id: u32,
    pub latest_files: Vec<File>,
    pub latest_files_indexes: Vec<FileIndex>,
    pub date_created: String,
    pub date_modified: String,
    pub date_released: String,
    pub allow_mod_distribution: Option<bool>,
    pub game_popularity_rank: u32,
    pub is_available: bool,
    pub thumbs_up_count: u32,
}

/// Web links of a mod.
#[derive(Debug, Clone)]
pub struct ModLinks {
    pub website_url: Option<String>,
    pub wiki_url: Option<String>,
    pub issues_url: Option<String>,
    pub source_url: Option<String>,
}

/// A category of the registry.
#[derive(Debug, Clone)]
pub struct Category {
    pub id: u32,
    pub game_id: u32,
    pub name: String,
    pub slug: String,
    pub url: String,
    pub icon_url: String,
    pub date_modified: String,
    pub is_class: Option<bool>,
    pub class_id: Option<u32>,
    pub parent_category_id: Option<u32>,
}

/// An author of a mod.
#[derive(Debug, Clone)]
pub struct ModAuthor {
    pub id: u32,
    pub name: String,
    pub url: String,
}

/// An image attached to a mod.
#[derive(Debug, Clone)]
pub struct ModAsset {
    pub id: u32,
    pub mod_id: u32,
    pub title: String,
    pub description: String,
    pub thumbnail_url: String,
    pub url: String,
}

/// The latest file of a mod for one game version.
#[derive(Debug, Clone)]
pub struct FileIndex {
    pub game_version: String,
    pub file_id: u32,
    pub filename: String,
    pub release_type: FileReleaseType,
    pub game_version_type_id: Option<u32>,
    pub mod_loader: Option<ModLoaderType>,
}

/// Response of the "get mod files" endpoint.
#[derive(Debug, Clone)]
pub struct GetModFilesResponse {
    pub data: Vec<File>,
    pub pagination: Pagination,
}

/// One downloadable file of a mod.
#[derive(Debug, Clone)]
pub struct File {
    pub id: u32,
    pub game_id: u32,
    pub mod_id: u32,
    pub is_available: bool,
    pub display_name: String,
    pub file_name: String,
    pub release_type: FileReleaseType,
    pub file_status: FileStatus,
    pub hashes: Vec<FileHash>,
    pub file_date: String,
    pub file_length: u64,
    pub download_count: u64,
    pub download_url: Option<String>,
    pub game_versions: Vec<String>,
    pub sortable_game_versions: Vec<SortableGameVersion>,
    pub dependencies: Option<Vec<FileDependency>>,
    pub expose_as_alternative: Option<bool>,
    pub parent_project_file_id: Option<u32>,
    pub alternate_file_id: Option<u32>,
    pub is_server_pack: Option<bool>,
    pub server_pack_file_id: Option<u32>,
    pub file_fingerprint: u64,
    pub modules: Option<Vec<FileModule>>,
}

/// A hash of a file.
#[derive(Debug, Clone)]
pub struct FileHash {
    pub value: String,
    pub algo: u32,
}

/// A game version in a sortable form.
#[derive(Debug, Clone)]
pub struct SortableGameVersion {
    pub game_version_name: String,
    pub game_version_padded: String,
    pub game_version: String,
    pub game_version_release_date: String,
    pub game_version_type_id: Option<u32>,
}

/// A dependency that a file declares on another project.
#[derive(Debug, Clone, Copy, PartialEq, Eq, Structural)]
pub struct FileDependency {
    pub mod_id: u32,
    pub file_id: Option<u32>,
    pub relation_type: FileRelationType,
}

/// A module (top-level entry) inside a file.
#[derive(Debug, Clone)]
pub struct FileModule {
    pub name: String,
    pub fingerprint: u64,
}

/// Paging information of a list response.
#[derive(Debug, Clone, Copy, PartialEq, Eq, Structural)]
pub struct Pagination {
    pub index: u32,
    pub page_size: u32,
    pub result_count: u32,
    pub total_count: u64,
}

/// The manifest of a CurseForge modpack archive.
#[derive(Debug, Clone)]
pub struct Manifest {
    pub minecraft: ManifestMinecraft,
    pub manifest_type: String,
    pub manifest_version: u32,
    pub name: String,
    pub version: String,
    pub author: String,
    pub files: Vec<ManifestFile>,
    pub overrides: String,
}

/// The game block of a modpack manifest.
#[derive(Debug, Clone)]
pub struct ManifestMinecraft {
    pub version: String,
    pub mod_loaders: Vec<ManifestModLoader>,
}

/// A mod loader of a modpack manifest, written `<loader>-<version>`.
#[derive(Debug, Clone)]
pub struct ManifestModLoader {
    pub id: String,
    pub primary: bool,
}

/// One mod of a modpack manifest.
#[derive(Debug, Clone, Copy, PartialEq, Eq, Structural)]
pub struct ManifestFile {
    pub project_id: u32,
    pub file_id: u32,
    pub required: bool,
}

/// The review status of a mod.
#[derive(Debug, Clone, Copy, PartialEq, Eq, Structural)]
pub enum ModStatus {
    New,
    ChangesRequired,
    UnderSoftReview,
    Approved,
    Rejected,
    ChangesMade,
    Inactive,
    Abandoned,
    Deleted,
    UnderReview,
}

impl ModStatus {
    /// The variant for a numeric code; unknown codes mean `New`.
    pub open spec fn spec_from_code(val: u32) -> Self {
        if val == 2 {
            ModStatus::ChangesRequired
        } else if val == 3 {
            ModStatus::UnderSoftReview
        } else if val == 4 {
            ModStatus::Approved
        } else if val == 5 {
            ModStatus::Rejected
        } else if val == 6 {
            ModStatus::ChangesMade
        } else if val == 7 {
            ModStatus::Inactive
        } else if val == 8 {
            ModStatus::Abandoned
        } else if val == 9 {
            ModStatus::Deleted
        } else if val == 10 {
            ModStatus::UnderReview
        } else {
            ModStatus::New
        }
    }

    /// The numeric code of the variant.
    pub open spec fn spec_code(self) -> u32 {
        match self {
            ModStatus::New => 1,
            ModStatus::ChangesRequired => 2,
            ModStatus::UnderSoftReview => 3,
            ModStatus::Approved => 4,
            ModStatus::Rejected => 5,
            ModStatus::ChangesMade => 6,
            ModStatus::Inactive => 7,
            ModStatus::Abandoned => 8,
            ModStatus::Deleted => 9,
            ModStatus::UnderReview => 10,
        }
    }

    pub fn code(&self) -> (r: u32)
        ensures
            r == self.spec_code(),
    {
        match self {
            ModStatus::New => 1,
            ModStatus::ChangesRequired => 2,
            ModStatus::UnderSoftReview => 3,
            ModStatus::Approved => 4,
            ModStatus::Rejected => 5,
            ModStatus::ChangesMade => 6,
            ModStatus::Inactive => 7,
            ModStatus::Abandoned => 8,
            ModStatus::Deleted => 9,
            ModStatus::UnderReview => 10,
        }
    }
}

impl From<u32> for ModStatus {
    fn from(val: u32) -> (r: Self) {
        match val {
            1 => ModStatus::New,
            2 => ModStatus::ChangesRequired,
            3 => ModStatus::UnderSoftReview,
            4 => ModStatus::Approved,
            5 => ModStatus::Rejected,
            6 => ModStatus::ChangesMade,
            7 => ModStatus::Inactive,
            8 => ModStatus::Abandoned,
            9 => ModStatus::Deleted,
            10 => ModStatus::UnderReview,
            _ => ModStatus::New,
        }
    }
}

impl vstd::std_specs::convert::FromSpecImpl<u32> for ModStatus {
    open spec fn obeys_from_spec() -> bool {
        true
    }

    open spec fn from_spec(v: u32) -> Self {
        ModStatus::spec_from_code(v)
    }
}

impl From<ModStatus> for u32 {
    fn from(v: ModStatus) -> (r: u32) {
        v.code()
    }
}

impl vstd::std_specs::convert::FromSpecImpl<ModStatus> for u32 {
    open spec fn obeys_from_spec() -> bool {
        true
    }

    open spec fn from_spec(v: ModStatus) -> u32 {
        v.spec_code()
    }
}

/// A mod loader as the registry numbers it.
#[derive(Debug, Clone, Copy, PartialEq, Eq, Structural)]
pub enum ModLoaderType {
    Forge,
    Cauldron,
    LiteLoader,
    Fabric,
    Quilt,
    NeoForge,
}

impl ModLoaderType {
    /// The variant for a numeric code; unknown codes mean `Forge`.
    pub open spec fn spec_from_code(val: u32) -> Self {
        if val == 2 {
            ModLoaderType::Cauldron
        } else if val == 3 {
            ModLoaderType::LiteLoader
        } else if val == 4 {
            ModLoaderType::Fabric
        } else if val == 5 {
            ModLoaderType::Quilt
        } else if val == 6 {
            ModLoaderType::NeoForge
        } else {
            ModLoaderType::Forge
        }
    }

    /// The numeric code of the variant.
    pub open spec fn spec_code(self) -> u32 {
        match self {
            ModLoaderType::Forge => 1,
            ModLoaderType::Cauldron => 2,
            ModLoaderType::LiteLoader => 3,
            ModLoaderType::Fabric => 4,
            ModLoaderType::Quilt => 5,
            ModLoaderType::NeoForge => 6,
        }
    }

    pub fn code(&self) -> (r: u32)
        ensures
            r == self.spec_code(),
    {
        match self {
            ModLoaderType::Forge => 1,
            ModLoaderType::Cauldron => 2,
            ModLoaderType::LiteLoader => 3,
            ModLoaderType::Fabric => 4,
            ModLoaderType::Quilt => 5,
            ModLoaderType::NeoForge => 6,
        }
    }
}

impl From<u32> for ModLoaderType {
    fn from(val: u32) -> (r: Self) {
        match val {
            1 => ModLoaderType::Forge,
            2 => ModLoaderType::Cauldron,
            3 => ModLoaderType::LiteLoader,
            4 => ModLoaderType::Fabric,
            5 => ModLoaderType::Quilt,
            6 => ModLoaderType::NeoForge,
            _ => ModLoaderType::Forge,
        }
    }
}

impl vstd::std_specs::convert::FromSpecImpl<u32> for ModLoaderType {
    open spec fn obeys_from_spec() -> bool {
        true
    }

    open spec fn from_spec(v: u32) -> Self {
        ModLoaderType::spec_from_code(v)
    }
}

impl From<ModLoaderType> for u32 {
    fn from(v: ModLoaderType) -> (r: u32) {
        v.code()
    }
}

impl vstd::std_specs::convert::FromSpecImpl<ModLoaderType> for u32 {
    open spec fn obeys_from_spec() -> bool {
        true
    }

    open spec fn from_spec(v: ModLoaderType) -> u32 {
        v.spec_code()
    }
}

/// The release channel of a file.
#[derive(Debug, Clone, Copy, PartialEq, Eq, Structural)]
pub enum FileReleaseType {
    Release,
    Beta,
    Alpha,
}

impl FileReleaseType {
    /// The variant for a numeric code; unknown codes mean `Release`.
    pub open spec fn spec_from_code(val: u32) -> Self {
        if val == 2 {
            FileReleaseType::Beta
        } else if val == 3 {
            FileReleaseType::Alpha
        } else {
            FileReleaseType::Release
        }
    }

    /// The numeric code of the variant.
    pub open spec fn spec_code(self) -> u32 {
        match self {
            FileReleaseType::Release => 1,
            FileReleaseType::Beta => 2,
            FileReleaseType::Alpha => 3,
        }
    }

    pub fn code(&self) -> (r: u32)
        ensures
            r == self.spec_code(),
    {
        match self {
            FileReleaseType::Release => 1,
            FileReleaseType::Beta => 2,
            FileReleaseType::Alpha => 3,
        }
    }
}

impl From<u32> for FileReleaseType {
    fn from(val: u32) -> (r: Self) {
        match val {
            1 => FileReleaseType::Release,
            2 => FileReleaseType::Beta,
            3 => FileReleaseType::Alpha,
            _ => FileReleaseType::Release,
        }
    }
}

impl vstd::std_specs::convert::FromSpecImpl<u32> for FileReleaseType {
    open spec fn obeys_from_spec() -> bool {
        true
    }

    open spec fn from_spec(v: u32) -> Self {
        FileReleaseType::spec_from_code(v)
    }
}

impl From<FileReleaseType> for u32 {
    fn from(v: FileReleaseType) -> (r: u32) {
        v.code()
    }
}

impl vstd::std_specs::convert::FromSpecImpl<FileReleaseType> for u32 {
    open spec fn obeys_from_spec() -> bool {
        true
    }

    open spec fn from_spec(v: FileReleaseType) -> u32 {
        v.spec_code()
    }
}

/// The processing status of a file.
#[derive(Debug, Clone, Copy, PartialEq, Eq, Structural)]
pub enum FileStatus {
    Processing,
    ChangesRequired,
    UnderReview,
    Approved,
    Rejected,
    MalwareDetected,
    Deleted,
    Archived,
    Testing,
    Released,
    ReadyForReview,
    Deprecated,
    Baking,
    AwaitingPublishing,
    FailedPublishing,
}

impl FileStatus {
    /// The variant for a numeric code; unknown codes mean `Processing`.
    pub open spec fn spec_from_code(val: u32) -> Self {
        if val == 2 {
            FileStatus::ChangesRequired
        } else if val == 3 {
            FileStatus::UnderReview
        } else if val == 4 {
            FileStatus::Approved
        } else if val == 5 {
            FileStatus::Rejected
        } else if val == 6 {
            FileStatus::MalwareDetected
        } else if val == 7 {
            FileStatus::Deleted
        } else if val == 8 {
            FileStatus::Archived
        } else if val == 9 {
            FileStatus::Testing
        } else if val == 10 {
            FileStatus::Released
        } else if val == 11 {
            FileStatus::ReadyForReview
        } else if val == 12 {
            FileStatus::Deprecated
        } else if val == 13 {
            FileStatus::Baking
        } else if val == 14 {
            FileStatus::AwaitingPublishing
        } else if val == 15 {
            FileStatus::FailedPublishing
        } else {
            FileStatus::Processing
        }
    }

    /// The numeric code of the variant.
    pub open spec fn spec_code(self) -> u32 {
        match self {
            FileStatus::Processing => 1,
            FileStatus::ChangesRequired => 2,
            FileStatus::UnderReview => 3,
            FileStatus::Approved => 4,
            FileStatus::Rejected => 5,
            FileStatus::MalwareDetected => 6,
            FileStatus::Deleted => 7,
            FileStatus::Archived => 8,
            FileStatus::Testing => 9,
            FileStatus::Released => 10,
            FileStatus::ReadyForReview => 11,
            FileStatus::Deprecated => 12,
            FileStatus::Baking => 13,
            FileStatus::AwaitingPublishing => 14,
            FileStatus::FailedPublishing => 15,
        }
    }

    pub fn code(&self) -> (r: u32)
        ensures
            r == self.spec_code(),
    {
        match self {
            FileStatus::Processing => 1,
            FileStatus::ChangesRequired => 2,
            FileStatus::UnderReview => 3,
            FileStatus::Approved => 4,
            FileStatus::Rejected => 5,
            FileStatus::MalwareDetected => 6,
            FileStatus::Deleted => 7,
            FileStatus::Archived => 8,
            FileStatus::Testing => 9,
            FileStatus::Released => 10,
            FileStatus::ReadyForReview => 11,
            FileStatus::Deprecated => 12,
            FileStatus::Baking => 13,
            FileStatus::AwaitingPublishing => 14,
            FileStatus::FailedPublishing => 15,
        }
    }
}

impl From<u32> for FileStatus {
    fn from(val: u32) -> (r: Self) {
        match val {
            1 => FileStatus::Processing,
            2 => FileStatus::ChangesRequired,
            3 => FileStatus::UnderReview,
            4 => FileStatus::Approved,
            5 => FileStatus::Rejected,
            6 => FileStatus::MalwareDetected,
            7 => FileStatus::Deleted,
            8 => FileStatus::Archived,
            9 => FileStatus::Testing,
            10 => FileStatus::Released,
            11 => FileStatus::ReadyForReview,
            12 => FileStatus::Deprecated,
            13 => FileStatus::Baking,
            14 => FileStatus::AwaitingPublishing,
            15 => FileStatus::FailedPublishing,
            _ => FileStatus::Processing,
        }
    }
}

impl vstd::std_specs::convert::FromSpecImpl<u32> for FileStatus {
    open spec fn obeys_from_spec() -> bool {
        true
    }

    open spec fn from_spec(v: u32) -> Self {
        FileStatus::spec_from_code(v)
    }
}

impl From<FileStatus> for u32 {
    fn from(v: FileStatus) -> (r: u32) {
        v.code()
    }
}

impl vstd::std_specs::convert::FromSpecImpl<FileStatus> for u32 {
    open spec fn obeys_from_spec() -> bool {
        true
    }

    open spec fn from_spec(v: FileStatus) -> u32 {
        v.spec_code()
    }
}

/// How a file relates to one of its dependencies.
#[derive(Debug, Clone, Copy, PartialEq, Eq, Structural)]
pub enum FileRelationType {
    EmbeddedLibrary,
    OptionalDependency,
    RequiredDependency,
    Tool,
    Incompatible,
    Include,
}

impl FileRelationType {
    /// The variant for a numeric code; unknown codes mean `RequiredDependency`.
    pub open spec fn spec_from_code(val: u32) -> Self {
        if val == 1 {
            FileRelationType::EmbeddedLibrary
        } else if val == 2 {
            FileRelationType::OptionalDependency
        } else if val == 4 {
            FileRelationType::Tool
        } else if val == 5 {
            FileRelationType::Incompatible
        } else if val == 6 {
            FileRelationType::Include
        } else {
            FileRelationType::RequiredDependency
        }
    }

    /// The numeric code of the variant.
    pub open spec fn spec_code(self) -> u32 {
        match self {
            FileRelationType::EmbeddedLibrary => 1,
            FileRelationType::OptionalDependency => 2,
            FileRelationType::RequiredDependency => 3,
            FileRelationType::Tool => 4,
            FileRelationType::Incompatible => 5,
            FileRelationType::Include => 6,
        }
    }

    pub fn code(&self) -> (r: u32)
        ensures
            r == self.spec_code(),
    {
        match self {
            FileRelationType::EmbeddedLibrary => 1,
            FileRelationType::OptionalDependency => 2,
            FileRelationType::RequiredDependency => 3,
            FileRelationType::Tool => 4,
            FileRelationType::Incompatible => 5,
            FileRelationType::Include => 6,
        }
    }
}

impl From<u32> for FileRelationType {
    fn from(val: u32) -> (r: Self) {
        match val {
            1 => FileRelationType::EmbeddedLibrary,
            2 => FileRelationType::OptionalDependency,
            3 => FileRelationType::RequiredDependency,
            4 => FileRelationType::Tool,
            5 => FileRelationType::Incompatible,
            6 => FileRelationType::Include,
            _ => FileRelationType::RequiredDependency,
        }
    }
}

impl vstd::std_specs::convert::FromSpecImpl<u32> for FileRelationType {
    open spec fn obeys_from_spec() -> bool {
        true
    }

    open spec fn from_spec(v: u32) -> Self {
        FileRelationType::spec_from_code(v)
    }
}

impl From<FileRelationType> for u32 {
    fn from(v: FileRelationType) -> (r: u32) {
        v.code()
    }
}

impl vstd::std_specs::convert::FromSpecImpl<FileRelationType> for u32 {
    open spec fn obeys_from_spec() -> bool {
        true
    }

    open spec fn from_spec(v: FileRelationType) -> u32 {
        v.spec_code()
    }
}

} // verus!
