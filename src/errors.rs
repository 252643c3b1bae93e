use vstd::prelude::*;

verus! {

/// The failures of the tool, each with the text it reports where it has one.
#[derive(Debug, Clone, PartialEq, Eq)]
pub enum MinepackError {
    NoModpackFound,
    ModpackAlreadyExists,
    CurseforgeApiError(String),
    NoCompatibleModFiles(String),
    NoModsFound(String),
    InvalidModLoader,
    InvalidExportFormat,
    InvalidCurseforgeModUrl,
    ApiKeyNotFound,
    ModDownloadError(String),
    FileNotFound(String),
    InvalidFileFormat(String),
    IoError(String),
    SerializationError(String),
    DeserializationError(String),
    TomlSerializationError(String),
    RequestError(String),
    Cancelled,
    Unknown(String),
}

} // verus!
