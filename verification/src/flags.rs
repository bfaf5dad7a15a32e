use vstd::prelude::*;

verus! {

/// Kernel mount flags as passed to mount(2), kept as a plain bitset so that
/// contracts can speak about individual bits.  The values are the ones the
/// kernel ABI fixes for the MS_* constants.
pub const MS_RDONLY: u64 = 0x0000_0001;

pub const MS_NOSUID: u64 = 0x0000_0002;

pub const MS_NODEV: u64 = 0x0000_0004;

pub const MS_NOEXEC: u64 = 0x0000_0008;

pub const MS_SYNCHRONOUS: u64 = 0x0000_0010;

pub const MS_REMOUNT: u64 = 0x0000_0020;

pub const MS_MANDLOCK: u64 = 0x0000_0040;

pub const MS_DIRSYNC: u64 = 0x0000_0080;

pub const MS_NOATIME: u64 = 0x0000_0400;

pub const MS_NODIRATIME: u64 = 0x0000_0800;

pub const MS_BIND: u64 = 0x0000_1000;

pub const MS_REC: u64 = 0x0000_4000;

pub const MS_SILENT: u64 = 0x0000_8000;

pub const MS_POSIXACL: u64 = 0x0001_0000;

pub const MS_UNBINDABLE: u64 = 0x0002_0000;

pub const MS_PRIVATE: u64 = 0x0004_0000;

pub const MS_SLAVE: u64 = 0x0008_0000;

pub const MS_SHARED: u64 = 0x0010_0000;

pub const MS_RELATIME: u64 = 0x0020_0000;

pub const MS_I_VERSION: u64 = 0x0080_0000;

pub const MS_STRICTATIME: u64 = 0x0100_0000;

/// The parsed form of one mount entry's option list: a bitset of mount flags,
/// a bitset of propagation flags, and the comma-joined unrecognised options
/// that are forwarded to the filesystem as mount data.
pub struct MountOptions {
    pub mount_flags: u64,
    pub propagation_flags: u64,
    pub data: Option<String>,
}

impl Default for MountOptions {
    fn default() -> (r: Self)
        ensures
            r.mount_flags == 0,
            r.propagation_flags == 0,
            r.data is None,
    {
        MountOptions { mount_flags: 0, propagation_flags: 0, data: None }
    }
}

} // verus!
