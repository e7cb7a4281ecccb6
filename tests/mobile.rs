use icloud::mobile::{init, Icloud};
use icloud::{
    Capability, CreateFolderRequest, CreateFolderResponse, Error, ExistsRequest, ExistsResponse,
    NativeError, OpenFolderRequest, OpenFolderResponse, ReadDirEntry, ReadDirRequest,
    ReadDirResponse, ReadTextFileRequest, ReadTextFileResponse, RenameRequest, RenameResponse,
};

fn handler() -> Icloud {
    init().expect("the mobile forwarder always starts")
}

#[test]
fn open_folder_forwards_to_its_capability() {
    let mut seen = None;
    let r = handler().open_folder(OpenFolderRequest {}, |cap, _p| {
        seen = Some(cap.name());
        Ok(OpenFolderResponse { relative_path: Some("Docs".to_string()), absolute_path: None, url: None })
    });
    assert_eq!(seen, Some("openFolder"));
    let r = r.unwrap();
    assert_eq!(r.relative_path.as_deref(), Some("Docs"));
    assert_eq!(r.absolute_path, None);
    assert_eq!(r.url, None);
}

#[test]
fn read_dir_relays_native_listing_unchanged() {
    let listing = ReadDirResponse {
        entries: vec![ReadDirEntry { name: "x".to_string() }, ReadDirEntry { name: "y".to_string() }],
    };
    let expected = listing.clone();
    let r = handler().read_dir(ReadDirRequest { path: "/d".to_string() }, |cap, p| {
        assert_eq!(cap, Capability::ReadDir);
        assert_eq!(p.path, "/d");
        Ok(listing)
    });
    assert_eq!(r, Ok(expected));
}

#[test]
fn native_rejection_surfaces_unaltered() {
    let failure = NativeError::InvokeRejected {
        code: Some("notFound".to_string()),
        message: Some("no such file".to_string()),
    };
    let r = handler().read_text_file(ReadTextFileRequest { path: "gone.txt".to_string() }, |cap, _p| {
        assert_eq!(cap, Capability::ReadTextFile);
        Err::<ReadTextFileResponse, NativeError>(failure.clone())
    });
    let err = r.unwrap_err();
    assert_eq!(err, Error::PluginInvoke(failure.clone()));
    assert_eq!(err.native(), &failure);
}

#[test]
fn every_native_failure_kind_surfaces_unaltered() {
    let failures = vec![
        NativeError::UnreachableWebview,
        NativeError::Bridge("jni".to_string()),
        NativeError::InvokeRejected { code: None, message: None },
        NativeError::CannotDeserializeResponse("bad json".to_string()),
        NativeError::CannotSerializePayload("bad payload".to_string()),
    ];
    for f in failures {
        let g = f.clone();
        let r = handler().path_exists(ExistsRequest { path: "p".to_string() }, move |_c, _p| {
            Err::<ExistsResponse, NativeError>(g)
        });
        assert_eq!(r, Err(Error::PluginInvoke(f)));
    }
}

#[test]
fn create_folder_and_rename_hand_payload_through() {
    let h = handler();
    let r = h.create_folder(CreateFolderRequest { path: "/p".to_string() }, |cap, p| {
        assert_eq!(cap.name(), "createFolder");
        Ok(CreateFolderResponse { success: true, path: p.path })
    });
    assert_eq!(r, Ok(CreateFolderResponse { success: true, path: "/p".to_string() }));
    let r = h.rename(RenameRequest { old: "/a".to_string(), new: "/b".to_string() }, |cap, p| {
        assert_eq!(cap.name(), "rename");
        Ok(RenameResponse { success: true, old: p.old, new: p.new })
    });
    assert_eq!(
        r,
        Ok(RenameResponse { success: true, old: "/a".to_string(), new: "/b".to_string() })
    );
}
