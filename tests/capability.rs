use icloud::error::relay;
use icloud::{Capability, Error, NativeError};

#[test]
fn capability_names_match_native_registrations() {
    let expected = [
        (Capability::OpenFolder, "openFolder"),
        (Capability::ReadDir, "readDir"),
        (Capability::ReadTextFile, "readTextFile"),
        (Capability::BulkReadTextFile, "bulkReadTextFile"),
        (Capability::ReadImageFile, "readImageFile"),
        (Capability::WriteTextFile, "writeTextFile"),
        (Capability::Exists, "exists"),
        (Capability::CreateFolder, "createFolder"),
        (Capability::Rename, "rename"),
    ];
    for (cap, name) in expected {
        assert_eq!(cap.name(), name);
    }
}

#[test]
fn capability_names_are_distinct() {
    let all = [
        Capability::OpenFolder,
        Capability::ReadDir,
        Capability::ReadTextFile,
        Capability::BulkReadTextFile,
        Capability::ReadImageFile,
        Capability::WriteTextFile,
        Capability::Exists,
        Capability::CreateFolder,
        Capability::Rename,
    ];
    for a in all {
        for b in all {
            assert_eq!(a == b, a.name() == b.name());
        }
    }
}

#[test]
fn relay_keeps_value_and_wraps_failure() {
    assert_eq!(relay::<u32>(Ok(7)), Ok(7));
    assert_eq!(
        relay::<u32>(Err(NativeError::UnreachableWebview)),
        Err(Error::PluginInvoke(NativeError::UnreachableWebview))
    );
}
