//! APatch: version file and CSV package policy under `/data/adb/ap`.

use vstd::prelude::*;
use crate::text::{parse_i32, parse_int, trim, trimmed};

verus! {

/// The largest version number APatch has been seen to use; past it the
/// number is not one APatch writes.
pub const MAX_APATCH_VERSION: i32 = 999999;

/// What the APatch version file reports.
#[derive(Debug, Clone, Copy, PartialEq, Eq, Structural)]
pub enum Version {
    Supported,
    TooOld,
    Abnormal,
}

/// An unreadable or non-numeric file, or 0, is no APatch; `[min, MAX]` is
/// supported; `[1, min)` too old; anything else abnormal.
pub open spec fn classify(contents: Seq<u8>, min: int) -> Option<Version> {
    match parse_i32(trim(contents)) {
        None => None,
        Some(v) => if v == 0 {
            None
        } else if min <= v <= MAX_APATCH_VERSION {
            Some(Version::Supported)
        } else if 1 <= v < min {
            Some(Version::TooOld)
        } else {
            Some(Version::Abnormal)
        },
    }
}

/// Classifies the contents of `/data/adb/ap/version`.
pub fn get_apatch(contents: &[u8], min: i32) -> (r: Option<Version>)
    ensures
        r == classify(contents@, min as int),
{
    let t = trimmed(contents);
    match parse_int(t.as_slice()) {
        None => None,
        Some(v) => if v == 0 {
            None
        } else if min <= v && v <= MAX_APATCH_VERSION {
            Some(Version::Supported)
        } else if 1 <= v && v < min {
            Some(Version::TooOld)
        } else {
            Some(Version::Abnormal)
        },
    }
}

/// One row of `/data/adb/ap/package_config`
/// (`pkg,exclude,allow,uid,to_uid,sctx`).
#[derive(Debug)]
pub struct PackageConfig {
    pub pkg: String,
    pub exclude: i32,
    pub allow: i32,
    pub uid: i32,
    pub to_uid: i32,
    pub sctx: String,
}

/// The first row for `uid`, if any.
pub open spec fn find_config(rows: Seq<PackageConfig>, uid: i32) -> Option<PackageConfig>
    decreases rows.len(),
{
    if rows.len() == 0 {
        None
    } else if rows[0].uid == uid {
        Some(rows[0])
    } else {
        find_config(rows.drop_first(), uid)
    }
}

/// Index of the first row for `uid`.
fn first_row(rows: &Vec<PackageConfig>, uid: i32) -> (r: Option<usize>)
    ensures
        match r {
            Some(i) => i < rows@.len() && find_config(rows@, uid) == Some(rows@[i as int]),
            None => find_config(rows@, uid) is None,
        },
{
    let mut i: usize = 0;
    assert(rows@.subrange(0, rows@.len() as int) =~= rows@);
    while i < rows.len()
        invariant
            i <= rows@.len(),
            find_config(rows@, uid) == find_config(rows@.subrange(i as int, rows@.len() as int), uid),
        decreases rows@.len() - i,
    {
        let ghost rest = rows@.subrange(i as int, rows@.len() as int);
        if rows[i].uid == uid {
            return Some(i);
        }
        assert(rest.drop_first() =~= rows@.subrange(i + 1, rows@.len() as int));
        i = i + 1;
    }
    None
}

/// Root is granted when the uid's first row allows it; an unreadable file
/// or an unknown uid grants nothing.
pub open spec fn granted_spec(rows: Option<Seq<PackageConfig>>, uid: i32) -> bool {
    match rows {
        None => false,
        Some(rows) => match find_config(rows, uid) {
            Some(c) => c.allow == 1,
            None => false,
        },
    }
}

/// Mounts are hidden from the uid unless its first row says `exclude=0`;
/// an unreadable file leaves them alone.
pub open spec fn umount_spec(rows: Option<Seq<PackageConfig>>, uid: i32) -> bool {
    match rows {
        None => false,
        Some(rows) => match find_config(rows, uid) {
            Some(c) => c.exclude != 0,
            None => true,
        },
    }
}

/// The rows as read, `None` when the file could not be read.
pub open spec fn rows_view(rows: &Option<Vec<PackageConfig>>) -> Option<Seq<PackageConfig>> {
    match rows {
        Some(v) => Some(v@),
        None => None,
    }
}

pub fn uid_granted_root(rows: &Option<Vec<PackageConfig>>, uid: i32) -> (r: bool)
    ensures
        r == granted_spec(rows_view(rows), uid),
{
    match rows {
        None => false,
        Some(v) => match first_row(v, uid) {
            Some(i) => v[i].allow == 1,
            None => false,
        },
    }
}

pub fn uid_should_umount(rows: &Option<Vec<PackageConfig>>, uid: i32) -> (r: bool)
    ensures
        r == umount_spec(rows_view(rows), uid),
{
    match rows {
        None => false,
        Some(v) => match first_row(v, uid) {
            Some(i) => v[i].exclude != 0,
            None => true,
        },
    }
}

} // verus!
