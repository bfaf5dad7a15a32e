//! Core of a Linux OCI-compatible container runtime that hosts both ordinary
//! Linux containers and HermitCore unikernel images run under a hypervisor.
//!
//! The crate holds the runtime's decision logic: the mount-option parser, the
//! safe-path resolver and mount planner, the container record, the unikernel
//! detector and QEMU argv builder, the log-record framer, and the create-time
//! handshake state machine.  Process spawning, pipes and mount syscalls are
//! performed by a thin unverified driver that feeds events to these machines
//! and carries out the actions they return.

use vstd::prelude::*;

pub mod create;
pub mod errors;
pub mod flags;
pub mod hermit;
pub mod logfwd;
pub mod mounts;
pub mod numfmt;
pub mod options;
pub mod paths;
pub mod qemu;
pub mod record;
pub mod spawn;
pub mod strutil;

verus! {

/// The default state root, under which each container's state directory
/// lives.
pub fn get_project_dir() -> (r: String)
    ensures
        r@ == "/tmp/runh"@,
{
    "/tmp/runh".to_owned()
}

} // verus!
