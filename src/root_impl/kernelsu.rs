//! KernelSU: a kernel backend reached through `prctl` with a magic option
//! word.

use vstd::prelude::*;

verus! {

/// The `prctl` option word that KernelSU answers, and echoes into the
/// response code of each query it served.
pub const KERNEL_SU_OPTION: u32 = 0xdeadbeef;

pub const CMD_GET_VERSION: usize = 2;

pub const CMD_UID_GRANTED_ROOT: usize = 12;

pub const CMD_UID_SHOULD_UMOUNT: usize = 13;

/// What a present KernelSU kernel reports of its own version.
#[derive(Debug, Clone, Copy, PartialEq, Eq, Structural)]
pub enum Version {
    Supported,
    TooOld,
    Abnormal,
}

/// 0 is no KernelSU kernel; `[min, max]` is supported; `[1, min)` too old;
/// anything else (negative or past `max`) abnormal.
pub open spec fn classify(version: int, min: int, max: int) -> Option<Version> {
    if version == 0 {
        None
    } else if min <= version <= max {
        Some(Version::Supported)
    } else if 1 <= version < min {
        Some(Version::TooOld)
    } else {
        Some(Version::Abnormal)
    }
}

/// Classifies the version that the kernel wrote back for `CMD_GET_VERSION`.
pub fn get_kernel_su(version: i32, min: i32, max: i32) -> (r: Option<Version>)
    ensures
        r == classify(version as int, min as int, max as int),
{
    if version == 0 {
        None
    } else if min <= version && version <= max {
        Some(Version::Supported)
    } else if 1 <= version && version < min {
        Some(Version::TooOld)
    } else {
        Some(Version::Abnormal)
    }
}

/// The answer to `CMD_UID_GRANTED_ROOT`: it counts only when the kernel
/// echoed the option word into the response code.
pub fn uid_granted_root(granted: bool, result: u32) -> (r: bool)
    ensures
        r == (granted && result == KERNEL_SU_OPTION),
{
    granted && result == KERNEL_SU_OPTION
}

/// The answer to `CMD_UID_SHOULD_UMOUNT`, under the same rule.
pub fn uid_should_umount(umount: bool, result: u32) -> (r: bool)
    ensures
        r == (umount && result == KERNEL_SU_OPTION),
{
    umount && result == KERNEL_SU_OPTION
}

} // verus!
