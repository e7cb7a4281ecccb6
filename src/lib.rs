//! Request/response contract layer of an iCloud Drive file plugin, with its
//! desktop stand-in handler and its mobile forwarder.
pub mod capability;
pub mod desktop;
pub mod error;
pub mod mobile;
pub mod models;

pub use capability::Capability;
pub use error::{Error, NativeError, Result};
pub use models::{
    BulkReadTextFileEntry, BulkReadTextFileRequest, BulkReadTextFileResponse, CreateFolderRequest,
    CreateFolderResponse, ExistsRequest, ExistsResponse, OpenFolderRequest, OpenFolderResponse,
    ReadDirEntry, ReadDirRequest, ReadDirResponse, ReadImageFileRequest, ReadImageFileResponse,
    ReadTextFileRequest, ReadTextFileResponse, RenameRequest, RenameResponse, WriteTextFileRequest,
    WriteTextFileResponse,
};
