//! The closed set of native capabilities that the mobile forwarder invokes.
use vstd::prelude::*;

verus! {

/// One named native capability; the set is sealed so that a misspelt name
/// cannot reach the native side.
#[derive(Debug, Clone, Copy, PartialEq, Eq, Structural)]
pub enum Capability {
    OpenFolder,
    ReadDir,
    ReadTextFile,
    BulkReadTextFile,
    ReadImageFile,
    WriteTextFile,
    Exists,
    CreateFolder,
    Rename,
}

impl Capability {
    /// The name under which the native plugin registers this capability.
    pub open spec fn spec_name(self) -> Seq<char> {
        match self {
            Capability::OpenFolder => "openFolder"@,
            Capability::ReadDir => "readDir"@,
            Capability::ReadTextFile => "readTextFile"@,
            Capability::BulkReadTextFile => "bulkReadTextFile"@,
            Capability::ReadImageFile => "readImageFile"@,
            Capability::WriteTextFile => "writeTextFile"@,
            Capability::Exists => "exists"@,
            Capability::CreateFolder => "createFolder"@,
            Capability::Rename => "rename"@,
        }
    }

    /// The native name of this capability.
    pub fn name(&self) -> (r: &'static str)
        ensures
            r@ == self.spec_name(),
    {
        match self {
            Capability::OpenFolder => "openFolder",
            Capability::ReadDir => "readDir",
            Capability::ReadTextFile => "readTextFile",
            Capability::BulkReadTextFile => "bulkReadTextFile",
            Capability::ReadImageFile => "readImageFile",
            Capability::WriteTextFile => "writeTextFile",
            Capability::Exists => "exists",
            Capability::CreateFolder => "createFolder",
            Capability::Rename => "rename",
        }
    }
}

/// Distinct capabilities carry distinct native names, so a name designates a
/// single capability.
pub proof fn lemma_names_distinct(a: Capability, b: Capability)
    requires
        a != b,
    ensures
        a.spec_name() != b.spec_name(),
{
    reveal_strlit("openFolder");
    reveal_strlit("readDir");
    reveal_strlit("readTextFile");
    reveal_strlit("bulkReadTextFile");
    reveal_strlit("readImageFile");
    reveal_strlit("writeTextFile");
    reveal_strlit("exists");
    reveal_strlit("createFolder");
    reveal_strlit("rename");
    if a.spec_name() == b.spec_name() {
        assert(a.spec_name()[0] == b.spec_name()[0]);
        assert(a.spec_name().len() == b.spec_name().len());
    }
}

} // verus!
