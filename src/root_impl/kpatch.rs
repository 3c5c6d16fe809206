//! KPatch: a kernel patch queried through the `kpatch` command line.

use vstd::prelude::*;
use crate::text::{contains, copy_range, decimal_int, find, parse_i32, parse_int, push_int, trim, trimmed};

verus! {

/// What `kpatch -v` reports.
#[derive(Debug, Clone, Copy, PartialEq, Eq, Structural)]
pub enum Version {
    Supported,
    TooOld,
}

/// Output that is not a number, or 0, is no KPatch; a number from `min` on
/// is supported, any other too old.
pub open spec fn classify(output: Seq<u8>, min: int) -> Option<Version> {
    match parse_i32(trim(output)) {
        None => None,
        Some(v) => if v == 0 {
            None
        } else if v >= min {
            Some(Version::Supported)
        } else {
            Some(Version::TooOld)
        },
    }
}

/// Classifies the output of `kpatch -v`.
pub fn get_kpatch(output: &[u8], min: i32) -> (r: Option<Version>)
    ensures
        r == classify(output@, min as int),
{
    let t = trimmed(output);
    match parse_int(t.as_slice()) {
        None => None,
        Some(v) => if v == 0 {
            None
        } else if v >= min {
            Some(Version::Supported)
        } else {
            Some(Version::TooOld)
        },
    }
}

/// `s[a..b]` is one line of `s`: it starts the text or follows a newline,
/// ends the text or stops before one, and holds none.
pub open spec fn is_line(s: Seq<u8>, a: int, b: int) -> bool {
    &&& 0 <= a <= b <= s.len()
    &&& (a == 0 || s[a - 1] == 10)
    &&& (b == s.len() || s[b] == 10)
    &&& forall|k: int| a <= k < b ==> s[k] != 10
}

/// Some line of `s`, trimmed, is the number `uid`.
pub open spec fn lists_uid(s: Seq<u8>, uid: i32) -> bool {
    exists|a: int, b: int| #[trigger] is_line(s, a, b) && parse_i32(trim(s.subrange(a, b))) == Some(uid)
}

pub open spec fn output_view(output: &Option<Vec<u8>>) -> Option<Seq<u8>> {
    match output {
        Some(v) => Some(v@),
        None => None,
    }
}

fn line_is_uid(s: &[u8], a: usize, b: usize, uid: i32) -> (r: bool)
    requires
        a <= b <= s@.len(),
    ensures
        r == (parse_i32(trim(s@.subrange(a as int, b as int))) == Some(uid)),
{
    let seg = copy_range(s, a, b);
    let t = trimmed(seg.as_slice());
    match parse_int(t.as_slice()) {
        Some(v) => v == uid,
        None => false,
    }
}

fn list_has_uid(s: &[u8], uid: i32) -> (r: bool)
    ensures
        r == lists_uid(s@, uid),
{
    let n = s.len();
    let mut start: usize = 0;
    let mut i: usize = 0;
    while i < n
        invariant
            n == s@.len(),
            start <= i <= n,
            start == 0 || s@[start - 1] == 10,
            forall|k: int| start <= k < i ==> s@[k] != 10,
            forall|a: int, b: int|
                #[trigger] is_line(s@, a, b) && a < start ==> parse_i32(trim(s@.subrange(a, b)))
                    != Some(uid),
        decreases n - i,
    {
        if s[i] == 10 {
            assert(is_line(s@, start as int, i as int));
            if line_is_uid(s, start, i, uid) {
                return true;
            }
            let ghost old_start = start as int;
            assert forall|a: int, b: int|
                #[trigger] is_line(s@, a, b) && a < i + 1 implies parse_i32(trim(s@.subrange(a, b)))
                != Some(uid) by {
                if a >= old_start {
                    if a > old_start {
                        assert(s@[a - 1] != 10);
                    }
                    if b < i {
                        assert(s@[b] != 10);
                    }
                    if b > i {
                        assert(s@[i as int] != 10);
                    }
                    assert(a == old_start && b == i);
                }
            }
            start = i + 1;
        }
        i = i + 1;
    }
    assert(is_line(s@, start as int, n as int));
    if line_is_uid(s, start, n, uid) {
        return true;
    }
    assert forall|a: int, b: int|
        #[trigger] is_line(s@, a, b) implies parse_i32(trim(s@.subrange(a, b))) != Some(uid) by {
        if a >= start {
            if a > start {
                assert(s@[a - 1] != 10);
            }
            if b < n {
                assert(s@[b] != 10);
            }
            assert(a == start && b == n);
        }
    }
    false
}

/// Root is granted when a line of `kpatch <key> sumgr list` is the uid; a
/// failed run grants nothing.
pub open spec fn granted_spec(output: Option<Seq<u8>>, uid: i32) -> bool {
    match output {
        Some(o) => lists_uid(o, uid),
        None => false,
    }
}

/// Mounts stay for a uid whose decimal form stands anywhere in the
/// `sumgr list` output, and are hidden from every other uid.
pub open spec fn umount_spec(output: Option<Seq<u8>>, uid: i32) -> bool {
    match output {
        Some(o) => !contains(o, decimal_int(uid as int)),
        None => true,
    }
}

pub fn uid_granted_root(output: &Option<Vec<u8>>, uid: i32) -> (r: bool)
    ensures
        r == granted_spec(output_view(output), uid),
{
    match output {
        Some(o) => list_has_uid(o.as_slice(), uid),
        None => false,
    }
}

pub fn uid_should_umount(output: &Option<Vec<u8>>, uid: i32) -> (r: bool)
    ensures
        r == umount_spec(output_view(output), uid),
{
    match output {
        Some(o) => {
            let mut needle: Vec<u8> = Vec::new();
            push_int(&mut needle, uid as i64);
            assert(needle@ =~= decimal_int(uid as int));
            !find(o.as_slice(), needle.as_slice())
        },
        None => true,
    }
}

} // verus!
