use vstd::prelude::*;

verus! {

/// The first byte of every request sent to the daemon socket.
#[derive(Debug, Clone, Copy, PartialEq, Eq, Structural)]
pub enum DaemonSocketAction {
    PingHeartbeat,
    RequestLogcatFd,
    GetProcessFlags,
    ReadModules,
    RequestCompanionSocket,
    GetModuleDir,
    ZygoteRestart,
    SystemServerStarted,
}

/// The action that a request byte stands for, in declaration order.
pub open spec fn action_of_byte(b: u8) -> Option<DaemonSocketAction> {
    if b == 0 {
        Some(DaemonSocketAction::PingHeartbeat)
    } else if b == 1 {
        Some(DaemonSocketAction::RequestLogcatFd)
    } else if b == 2 {
        Some(DaemonSocketAction::GetProcessFlags)
    } else if b == 3 {
        Some(DaemonSocketAction::ReadModules)
    } else if b == 4 {
        Some(DaemonSocketAction::RequestCompanionSocket)
    } else if b == 5 {
        Some(DaemonSocketAction::GetModuleDir)
    } else if b == 6 {
        Some(DaemonSocketAction::ZygoteRestart)
    } else if b == 7 {
        Some(DaemonSocketAction::SystemServerStarted)
    } else {
        None
    }
}

impl DaemonSocketAction {
    /// Decodes a request byte; any byte past the last action is a protocol
    /// violation.
    pub fn from_u8(b: u8) -> (r: Option<DaemonSocketAction>)
        ensures
            r == action_of_byte(b),
    {
        match b {
            0 => Some(DaemonSocketAction::PingHeartbeat),
            1 => Some(DaemonSocketAction::RequestLogcatFd),
            2 => Some(DaemonSocketAction::GetProcessFlags),
            3 => Some(DaemonSocketAction::ReadModules),
            4 => Some(DaemonSocketAction::RequestCompanionSocket),
            5 => Some(DaemonSocketAction::GetModuleDir),
            6 => Some(DaemonSocketAction::ZygoteRestart),
            7 => Some(DaemonSocketAction::SystemServerStarted),
            _ => None,
        }
    }
}

/// Process flag: the uid holds root.
pub const PROCESS_GRANTED_ROOT: u32 = 0x0000_0001;

/// Process flag: mounts are hidden from the uid.
pub const PROCESS_ON_DENYLIST: u32 = 0x0000_0002;

pub const PROCESS_ROOT_IS_APATCH: u32 = 0x0800_0000;

pub const PROCESS_IS_MANAGER: u32 = 0x1000_0000;

pub const PROCESS_ROOT_IS_KSU: u32 = 0x2000_0000;

pub const PROCESS_ROOT_IS_MAGISK: u32 = 0x4000_0000;

pub const PROCESS_IS_SYSUI: u32 = 0x8000_0000;

/// Datagram to the watchdog once a process in Zygote has checked in.
pub open spec fn zygote_injected_spec(is64: bool) -> i32 {
    if is64 {
        4
    } else {
        5
    }
}

/// Tag of a success status frame.
pub open spec fn daemon_set_info_spec(is64: bool) -> u32 {
    if is64 {
        6
    } else {
        7
    }
}

/// Tag of a failure status frame.
pub open spec fn daemon_set_error_info_spec(is64: bool) -> u32 {
    if is64 {
        8
    } else {
        9
    }
}

/// Datagram to the watchdog once system_server has started.
pub const SYSTEM_SERVER_STARTED: i32 = 10;

/// The heartbeat datagram value of the 32-bit or 64-bit daemon.
pub fn zygote_injected(is64: bool) -> (r: i32)
    ensures
        r == zygote_injected_spec(is64),
{
    if is64 {
        4
    } else {
        5
    }
}

pub fn daemon_set_info(is64: bool) -> (r: u32)
    ensures
        r == daemon_set_info_spec(is64),
{
    if is64 {
        6
    } else {
        7
    }
}

pub fn daemon_set_error_info(is64: bool) -> (r: u32)
    ensures
        r == daemon_set_error_info_spec(is64),
{
    if is64 {
        8
    } else {
        9
    }
}

} // verus!
