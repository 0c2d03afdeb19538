use vstd::prelude::*;

verus! {

/// The operation whose failure an `Error::SyscallFailed` reports.
#[derive(Clone, Copy, Debug, PartialEq, Eq, Structural)]
pub enum SyscallOp {
    Mount,
    Umount,
    PivotRoot,
    Chdir,
    CloneProcess,
    Waitpid,
    Sethostname,
    MkDir,
    RmDir,
    RemoveFile,
    Rename,
    SocketPair,
    SocketRead,
    SocketWrite,
    CapDrop,
}

/// Everything that can go wrong in the runtime, from a malformed digest to a
/// failed syscall during the run pipeline.
#[derive(Clone, Copy, Debug, PartialEq, Eq, Structural)]
pub enum Error {
    MalformedDigest,
    ImageCorrupt,
    RegistryUnavailable,
    BlobFetchFailed,
    UnpackFailed,
    ParseError,
    SyscallFailed(SyscallOp, i32),
    CgroupSetupFailed,
    UsernsSetupFailed,
    ExecFailed,
}

} // verus!
