//! Request and response records of every operation. On the wire each field is
//! named in lower camel case (`relativePath`, `absolutePath`, ...).
use vstd::prelude::*;

verus! {

/// Holds exactly the text `s`.
pub open spec fn text_is(o: Option<String>, s: Seq<char>) -> bool {
    o matches Some(v) && v@ == s
}

/// Asks the user to pick a folder of the iCloud container.
#[derive(Debug, Clone, PartialEq, Eq)]
pub struct OpenFolderRequest {}

/// The folder that was picked; each field may be absent.
#[derive(Debug, Clone, PartialEq, Eq, Default)]
pub struct OpenFolderResponse {
    pub relative_path: Option<String>,
    pub absolute_path: Option<String>,
    pub url: Option<String>,
}

#[derive(Debug, Clone, PartialEq, Eq)]
pub struct ReadDirRequest {
    pub path: String,
}

/// One item of a directory listing.
#[derive(Debug, Clone, PartialEq, Eq)]
pub struct ReadDirEntry {
    pub name: String,
}

#[derive(Debug, Clone, PartialEq, Eq)]
pub struct ReadDirResponse {
    pub entries: Vec<ReadDirEntry>,
}

#[derive(Debug, Clone, PartialEq, Eq)]
pub struct ReadTextFileRequest {
    pub path: String,
}

#[derive(Debug, Clone, PartialEq, Eq)]
pub struct ReadTextFileResponse {
    pub content: String,
}

/// Reads several text files in one call; each path gets its own outcome.
#[derive(Debug, Clone, PartialEq, Eq)]
pub struct BulkReadTextFileRequest {
    pub paths: Vec<String>,
}

/// The outcome for one path of a bulk read: its content, or else the reason
/// it could not be read.
#[derive(Debug, Clone, PartialEq, Eq)]
pub struct BulkReadTextFileEntry {
    pub path: String,
    pub content: Option<String>,
    pub error: Option<String>,
}

/// One entry per requested path, in the order of the request.
#[derive(Debug, Clone, PartialEq, Eq)]
pub struct BulkReadTextFileResponse {
    pub files: Vec<BulkReadTextFileEntry>,
}

#[derive(Debug, Clone, PartialEq, Eq)]
pub struct ReadImageFileRequest {
    pub path: String,
}

/// The image's bytes, encoded as text (base64).
#[derive(Debug, Clone, PartialEq, Eq)]
pub struct ReadImageFileResponse {
    pub content: String,
}

#[derive(Debug, Clone, PartialEq, Eq)]
pub struct WriteTextFileRequest {
    pub path: String,
    pub content: String,
}

#[derive(Debug, Clone, PartialEq, Eq)]
pub struct WriteTextFileResponse {
    pub success: bool,
    pub path: String,
}

#[derive(Debug, Clone, PartialEq, Eq)]
pub struct ExistsRequest {
    pub path: String,
}

#[derive(Debug, Clone, PartialEq, Eq)]
pub struct ExistsResponse {
    pub exists: bool,
}

#[derive(Debug, Clone, PartialEq, Eq)]
pub struct CreateFolderRequest {
    pub path: String,
}

#[derive(Debug, Clone, PartialEq, Eq)]
pub struct CreateFolderResponse {
    pub success: bool,
    pub path: String,
}

#[derive(Debug, Clone, PartialEq, Eq)]
pub struct RenameRequest {
    pub old: String,
    pub new: String,
}

#[derive(Debug, Clone, PartialEq, Eq)]
pub struct RenameResponse {
    pub success: bool,
    pub old: String,
    pub new: String,
}

} // verus!
