//! The desktop stand-in handler. iCloud Drive is not reachable from desktop
//! targets, so every operation answers with fixed placeholder values and
//! echoes the paths it was given; no file is read or written.
use vstd::prelude::*;
use crate::error::Result;
use crate::models::{
    text_is, BulkReadTextFileEntry, BulkReadTextFileRequest, BulkReadTextFileResponse,
    CreateFolderRequest, CreateFolderResponse, ExistsRequest, ExistsResponse, OpenFolderRequest,
    OpenFolderResponse, ReadDirEntry, ReadDirRequest, ReadDirResponse, ReadImageFileRequest,
    ReadImageFileResponse, ReadTextFileRequest, ReadTextFileResponse, RenameRequest,
    RenameResponse, WriteTextFileRequest, WriteTextFileResponse,
};

verus! {

pub open spec fn placeholder_relative_path() -> Seq<char> {
    "fake-relative-path"@
}

pub open spec fn placeholder_absolute_path() -> Seq<char> {
    "fake-absolute-path"@
}

pub open spec fn placeholder_url() -> Seq<char> {
    "fake-url"@
}

/// The name of the single entry of every listing.
pub open spec fn placeholder_name() -> Seq<char> {
    "fake-name"@
}

/// The content of every file read, text or image.
pub open spec fn placeholder_content() -> Seq<char> {
    "fake-content"@
}

/// Access to the iCloud operations on desktop targets.
pub struct Icloud {}

/// Sets up the desktop handler; it needs nothing and cannot fail.
pub fn init() -> (r: Result<Icloud>)
    ensures
        r is Ok,
{
    Ok(Icloud {})
}

impl Icloud {
    pub fn open_folder(&self, _payload: OpenFolderRequest) -> (r: Result<OpenFolderResponse>)
        ensures
            r matches Ok(resp) && {
                &&& text_is(resp.relative_path, placeholder_relative_path())
                &&& text_is(resp.absolute_path, placeholder_absolute_path())
                &&& text_is(resp.url, placeholder_url())
            },
    {
        Ok(OpenFolderResponse {
            relative_path: Some("fake-relative-path".to_owned()),
            absolute_path: Some("fake-absolute-path".to_owned()),
            url: Some("fake-url".to_owned()),
        })
    }

    pub fn read_dir(&self, _payload: ReadDirRequest) -> (r: Result<ReadDirResponse>)
        ensures
            r matches Ok(resp) && {
                &&& resp.entries@.len() == 1
                &&& resp.entries@[0].name@ == placeholder_name()
            },
    {
        let mut entries: Vec<ReadDirEntry> = Vec::new();
        entries.push(ReadDirEntry { name: "fake-name".to_owned() });
        Ok(ReadDirResponse { entries })
    }

    pub fn read_text_file(&self, _payload: ReadTextFileRequest) -> (r: Result<ReadTextFileResponse>)
        ensures
            r matches Ok(resp) && resp.content@ == placeholder_content(),
    {
        Ok(ReadTextFileResponse { content: "fake-content".to_owned() })
    }

    /// Answers every requested path, in order, with the placeholder content.
    pub fn bulk_read_text_file(&self, payload: BulkReadTextFileRequest) -> (r: Result<
        BulkReadTextFileResponse,
    >)
        ensures
            r matches Ok(resp) && {
                &&& resp.files@.len() == payload.paths@.len()
                &&& forall|i: int|
                    0 <= i < resp.files@.len() ==> {
                        &&& (#[trigger] resp.files@[i]).path@ == payload.paths@[i]@
                        &&& text_is(resp.files@[i].content, placeholder_content())
                        &&& resp.files@[i].error is None
                    }
            },
    {
        let mut files: Vec<BulkReadTextFileEntry> = Vec::new();
        let mut i: usize = 0;
        while i < payload.paths.len()
            invariant
                i <= payload.paths@.len(),
                files@.len() == i,
                forall|j: int|
                    0 <= j < i ==> {
                        &&& (#[trigger] files@[j]).path@ == payload.paths@[j]@
                        &&& text_is(files@[j].content, placeholder_content())
                        &&& files@[j].error is None
                    },
            decreases payload.paths@.len() - i,
        {
            files.push(
                BulkReadTextFileEntry {
                    path: payload.paths[i].clone(),
                    content: Some("fake-content".to_owned()),
                    error: None,
                },
            );
            i = i + 1;
        }
        Ok(BulkReadTextFileResponse { files })
    }

    pub fn read_image_file(&self, _payload: ReadImageFileRequest) -> (r: Result<
        ReadImageFileResponse,
    >)
        ensures
            r matches Ok(resp) && resp.content@ == placeholder_content(),
    {
        Ok(ReadImageFileResponse { content: "fake-content".to_owned() })
    }

    /// Reports success and echoes the path unchanged; nothing is written.
    pub fn write_text_file(&self, payload: WriteTextFileRequest) -> (r: Result<
        WriteTextFileResponse,
    >)
        ensures
            r matches Ok(resp) && resp.success && resp.path == payload.path,
    {
        Ok(WriteTextFileResponse { success: true, path: payload.path })
    }

    /// Every path is reported as present.
    pub fn path_exists(&self, _payload: ExistsRequest) -> (r: Result<ExistsResponse>)
        ensures
            r matches Ok(resp) && resp.exists,
    {
        Ok(ExistsResponse { exists: true })
    }

    /// Reports success and echoes the path unchanged; nothing is created.
    pub fn create_folder(&self, payload: CreateFolderRequest) -> (r: Result<
        CreateFolderResponse,
    >)
        ensures
            r matches Ok(resp) && resp.success && resp.path == payload.path,
    {
        Ok(CreateFolderResponse { success: true, path: payload.path })
    }

    /// Reports success and echoes both paths unchanged; nothing is renamed.
    pub fn rename(&self, payload: RenameRequest) -> (r: Result<RenameResponse>)
        ensures
            r matches Ok(resp) && resp.success && resp.old == payload.old && resp.new
                == payload.new,
    {
        Ok(RenameResponse { success: true, old: payload.old, new: payload.new })
    }
}

} // verus!
