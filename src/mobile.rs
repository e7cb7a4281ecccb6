//! The mobile forwarder. Each operation hands its request, unchanged, to the
//! named native capability through `invoke`, and relays what comes back: a
//! response as it is, a failure wrapped into [`Error::PluginInvoke`] with its
//! report untouched. No validation, transformation or retry happens here.
use vstd::prelude::*;
use crate::capability::Capability;
use crate::error::{relay, relayed, Error, NativeError, Result};
use crate::models::{
    OpenFolderRequest, OpenFolderResponse, ReadDirRequest, ReadDirResponse, ReadTextFileRequest, ReadTextFileResponse, BulkReadTextFileRequest, BulkReadTextFileResponse, ReadImageFileRequest, ReadImageFileResponse, WriteTextFileRequest, WriteTextFileResponse, ExistsRequest, ExistsResponse, CreateFolderRequest, CreateFolderResponse, RenameRequest, RenameResponse,
};

verus! {

/// What a forwarder may return after handing `payload` to `cap` through
/// `invoke`: exactly the relay of one outcome that the native side may give.
pub open spec fn forwarded<P, T, F: FnOnce(Capability, P) -> core::result::Result<T, NativeError>>(
    invoke: F,
    cap: Capability,
    payload: P,
    r: Result<T>,
) -> bool {
    exists|outcome: core::result::Result<T, NativeError>|
        #[trigger] invoke.ensures((cap, payload), outcome) && r == relayed(outcome)
}

/// A failure raised by the native capability reaches the caller as
/// `Error::PluginInvoke` carrying that very failure, with nothing altered.
pub proof fn lemma_failure_surfaced<P, T, F: FnOnce(Capability, P) -> core::result::Result<
    T,
    NativeError,
>>(invoke: F, cap: Capability, payload: P, e: NativeError, r: Result<T>)
    requires
        forwarded(invoke, cap, payload, r),
        forall|o: core::result::Result<T, NativeError>|
            #[trigger] invoke.ensures((cap, payload), o) ==> o == Err::<T, NativeError>(e),
    ensures
        r == Err::<T, Error>(Error::PluginInvoke(e)),
{
}

/// A response given by the native capability reaches the caller unchanged.
pub proof fn lemma_response_passed<P, T, F: FnOnce(Capability, P) -> core::result::Result<
    T,
    NativeError,
>>(invoke: F, cap: Capability, payload: P, v: T, r: Result<T>)
    requires
        forwarded(invoke, cap, payload, r),
        forall|o: core::result::Result<T, NativeError>|
            #[trigger] invoke.ensures((cap, payload), o) ==> o == Ok::<T, NativeError>(v),
    ensures
        r == Ok::<T, Error>(v),
{
}

/// Access to the iCloud operations on mobile targets, through the native
/// plugin registered by the host.
pub struct Icloud {}

/// Sets up the mobile forwarder; registering the native plugin is the host's
/// part.
pub fn init() -> (r: Result<Icloud>)
    ensures
        r is Ok,
{
    Ok(Icloud {})
}

impl Icloud {
    pub fn open_folder<F>(&self, payload: OpenFolderRequest, invoke: F) -> (r: Result<OpenFolderResponse>) where
        F: FnOnce(Capability, OpenFolderRequest) -> core::result::Result<OpenFolderResponse, NativeError>,

        requires
            invoke.requires((Capability::OpenFolder, payload)),
        ensures
            forwarded(invoke, Capability::OpenFolder, payload, r),
    {
        let outcome = invoke(Capability::OpenFolder, payload);
        relay(outcome)
    }

    pub fn read_dir<F>(&self, payload: ReadDirRequest, invoke: F) -> (r: Result<ReadDirResponse>) where
        F: FnOnce(Capability, ReadDirRequest) -> core::result::Result<ReadDirResponse, NativeError>,

        requires
            invoke.requires((Capability::ReadDir, payload)),
        ensures
            forwarded(invoke, Capability::ReadDir, payload, r),
    {
        let outcome = invoke(Capability::ReadDir, payload);
        relay(outcome)
    }

    pub fn read_text_file<F>(&self, payload: ReadTextFileRequest, invoke: F) -> (r: Result<ReadTextFileResponse>) where
        F: FnOnce(Capability, ReadTextFileRequest) -> core::result::Result<ReadTextFileResponse, NativeError>,

        requires
            invoke.requires((Capability::ReadTextFile, payload)),
        ensures
            forwarded(invoke, Capability::ReadTextFile, payload, r),
    {
        let outcome = invoke(Capability::ReadTextFile, payload);
        relay(outcome)
    }

    pub fn bulk_read_text_file<F>(&self, payload: BulkReadTextFileRequest, invoke: F) -> (r: Result<BulkReadTextFileResponse>) where
        F: FnOnce(Capability, BulkReadTextFileRequest) -> core::result::Result<BulkReadTextFileResponse, NativeError>,

        requires
            invoke.requires((Capability::BulkReadTextFile, payload)),
        ensures
            forwarded(invoke, Capability::BulkReadTextFile, payload, r),
    {
        let outcome = invoke(Capability::BulkReadTextFile, payload);
        relay(outcome)
    }

    pub fn read_image_file<F>(&self, payload: ReadImageFileRequest, invoke: F) -> (r: Result<ReadImageFileResponse>) where
        F: FnOnce(Capability, ReadImageFileRequest) -> core::result::Result<ReadImageFileResponse, NativeError>,

        requires
            invoke.requires((Capability::ReadImageFile, payload)),
        ensures
            forwarded(invoke, Capability::ReadImageFile, payload, r),
    {
        let outcome = invoke(Capability::ReadImageFile, payload);
        relay(outcome)
    }

    pub fn write_text_file<F>(&self, payload: WriteTextFileRequest, invoke: F) -> (r: Result<WriteTextFileResponse>) where
        F: FnOnce(Capability, WriteTextFileRequest) -> core::result::Result<WriteTextFileResponse, NativeError>,

        requires
            invoke.requires((Capability::WriteTextFile, payload)),
        ensures
            forwarded(invoke, Capability::WriteTextFile, payload, r),
    {
        let outcome = invoke(Capability::WriteTextFile, payload);
        relay(outcome)
    }

    pub fn path_exists<F>(&self, payload: ExistsRequest, invoke: F) -> (r: Result<ExistsResponse>) where
        F: FnOnce(Capability, ExistsRequest) -> core::result::Result<ExistsResponse, NativeError>,

        requires
            invoke.requires((Capability::Exists, payload)),
        ensures
            forwarded(invoke, Capability::Exists, payload, r),
    {
        let outcome = invoke(Capability::Exists, payload);
        relay(outcome)
    }

    pub fn create_folder<F>(&self, payload: CreateFolderRequest, invoke: F) -> (r: Result<CreateFolderResponse>) where
        F: FnOnce(Capability, CreateFolderRequest) -> core::result::Result<CreateFolderResponse, NativeError>,

        requires
            invoke.requires((Capability::CreateFolder, payload)),
        ensures
            forwarded(invoke, Capability::CreateFolder, payload, r),
    {
        let outcome = invoke(Capability::CreateFolder, payload);
        relay(outcome)
    }

    pub fn rename<F>(&self, payload: RenameRequest, invoke: F) -> (r: Result<RenameResponse>) where
        F: FnOnce(Capability, RenameRequest) -> core::result::Result<RenameResponse, NativeError>,

        requires
            invoke.requires((Capability::Rename, payload)),
        ensures
            forwarded(invoke, Capability::Rename, payload, r),
    {
        let outcome = invoke(Capability::Rename, payload);
        relay(outcome)
    }
}

} // verus!
