//! Decisions inside a companion process.

use vstd::prelude::*;

verus! {

/// A file's identity as `fstat` reports it.
#[derive(Debug, Clone, Copy, PartialEq, Eq, Structural)]
pub struct FileId {
    pub dev: u64,
    pub ino: u64,
}

/// After the module entry returned, the companion closes the client fd only
/// when it still names the same file as before the call. When the module
/// closed it, the number may now name an unrelated file, or none (`after`
/// is `None`), and is left alone.
pub fn should_close(before: FileId, after: Option<FileId>) -> (r: bool)
    ensures
        r == (after == Some(before)),
{
    match after {
        Some(a) => a.dev == before.dev && a.ino == before.ino,
        None => false,
    }
}

/// The companion's answer to the daemon after loading the module: 1 when
/// the module has a companion entry, 0 when it declined.
pub fn entry_reply(has_entry: bool) -> (r: u8)
    ensures
        r == (if has_entry {
            1u8
        } else {
            0u8
        }),
{
    if has_entry {
        1
    } else {
        0
    }
}

} // verus!
