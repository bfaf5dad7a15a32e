use vstd::prelude::*;

verus! {

/// The error kinds the runtime core produces.  Variants carry the values an
/// operator needs to act on the failure: the offending signal byte, or the
/// path, exit status and captured stderr of a failed lifecycle hook.
#[derive(Debug)]
pub enum CoreError {
    /// The state directory or `container.json` for the id already exists.
    AlreadyExists,
    /// `delete`/`start`/`state` target a missing id.
    NotFound,
    /// `config.json` is missing or unparseable.
    BadBundle,
    /// socketpair/pipe/mkfifo/chown failed while building the handshake fds.
    FdSetupFailed,
    /// The init helper could not be spawned.
    SpawnFailed,
    /// A wrong signal byte arrived on the init pipe.
    InitProtocolViolation { expected: u8, got: u8 },
    /// A read from the init pipe hit EOF or an error mid-handshake.
    InitDied,
    /// A prestart hook exited with a non-zero status.
    PrestartHookFailed { path: String, status: i32, stderr: String },
    /// A mount destination resolves outside the new root.
    EscapesRoot,
    /// A mount destination would shadow part of `/proc` inside the root.
    ProcShadow,
    /// A reserved mount option that the engine refuses to drop silently.
    UnsupportedOption,
    /// A `sysfs`/`proc` destination exists but is not a directory.
    NotADirectory,
    /// The mount entry asks for a filesystem type the engine does not handle.
    UnsupportedMountType,
    /// The mount entry names no source.
    MissingSource,
    /// The mount entry names no filesystem type.
    MissingType,
}

/// A copy of an error, equal to the one given.
pub fn clone_error(e: &CoreError) -> (r: CoreError)
    ensures
        r == *e,
{
    match e {
        CoreError::AlreadyExists => CoreError::AlreadyExists,
        CoreError::NotFound => CoreError::NotFound,
        CoreError::BadBundle => CoreError::BadBundle,
        CoreError::FdSetupFailed => CoreError::FdSetupFailed,
        CoreError::SpawnFailed => CoreError::SpawnFailed,
        CoreError::InitProtocolViolation { expected, got } => CoreError::InitProtocolViolation {
            expected: *expected,
            got: *got,
        },
        CoreError::InitDied => CoreError::InitDied,
        CoreError::PrestartHookFailed { path, status, stderr } => CoreError::PrestartHookFailed {
            path: path.clone(),
            status: *status,
            stderr: stderr.clone(),
        },
        CoreError::EscapesRoot => CoreError::EscapesRoot,
        CoreError::ProcShadow => CoreError::ProcShadow,
        CoreError::UnsupportedOption => CoreError::UnsupportedOption,
        CoreError::NotADirectory => CoreError::NotADirectory,
        CoreError::UnsupportedMountType => CoreError::UnsupportedMountType,
        CoreError::MissingSource => CoreError::MissingSource,
        CoreError::MissingType => CoreError::MissingType,
    }
}

} // verus!
