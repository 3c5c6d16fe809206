//! Magisk: a filesystem backend queried through the `magisk` command line.

use vstd::prelude::*;
use crate::text::{
    ascii_bytes, contains, copy_range, decimal_int, extend, find, has_prefix, lit, parse_i32,
    parse_int, push_int, starts_with, trim, trimmed,
};

verus! {

/// What `magisk -V` reports.
#[derive(Debug, Clone, Copy, PartialEq, Eq, Structural)]
pub enum Version {
    Supported,
    TooOld,
}

/// Output that is not a number, or 0, is no Magisk; a number from `min` on
/// is supported, any other too old.
pub open spec fn classify(output: Seq<u8>, min: int) -> Option<Version> {
    match parse_i32(trim(output)) {
        None => None,
        Some(v) => if v == 0 {
            None
        } else if v >= min {
            Some(Version::Supported)
        } else {
            Some(Version::TooOld)
        },
    }
}

/// Classifies the output of `magisk -V`.
pub fn get_magisk(output: &[u8], min: i32) -> (r: Option<Version>)
    ensures
        r == classify(output@, min as int),
{
    let t = trimmed(output);
    match parse_int(t.as_slice()) {
        None => None,
        Some(v) => if v == 0 {
            None
        } else if v >= min {
            Some(Version::Supported)
        } else {
            Some(Version::TooOld)
        },
    }
}

/// The manager package of the Magisk build that `magisk -v` names: the
/// alpha and kitsune forks have their own, any other build the official one.
pub open spec fn variant_spec(output: Seq<u8>) -> Seq<char> {
    if contains(output, lit("alpha"@)) {
        "io.github.vvb2060.magisk"@
    } else if contains(output, lit("kitsune"@)) {
        "io.github.huskydg.magisk"@
    } else {
        "com.topjohnwu.magisk"@
    }
}

/// Picks the manager package from the output of `magisk -v`.
pub fn magisk_variant(output: &[u8]) -> (r: &'static str)
    ensures
        r@ == variant_spec(output@),
{
    proof {
        reveal_strlit("alpha");
        reveal_strlit("kitsune");
    }
    if find(output, ascii_bytes("alpha")) {
        "io.github.vvb2060.magisk"
    } else if find(output, ascii_bytes("kitsune")) {
        "io.github.huskydg.magisk"
    } else {
        "com.topjohnwu.magisk"
    }
}

/// A `magisk --sqlite` query found a row when it printed anything; a failed
/// run finds none.
pub open spec fn has_row(output: Option<Seq<u8>>) -> bool {
    match output {
        Some(o) => o.len() > 0,
        None => false,
    }
}

pub open spec fn output_view(output: &Option<Vec<u8>>) -> Option<Seq<u8>> {
    match output {
        Some(v) => Some(v@),
        None => None,
    }
}

fn sqlite_has_row(output: &Option<Vec<u8>>) -> (r: bool)
    ensures
        r == has_row(output_view(output)),
{
    match output {
        Some(o) => o.len() > 0,
        None => false,
    }
}

pub open spec fn granted_query_spec(uid: i32) -> Seq<u8> {
    lit("select 1 from policies where uid="@) + decimal_int(uid as int) + lit(
        " and policy=2 limit 1"@,
    )
}

/// The query that finds a grant of root to `uid`.
pub fn granted_root_query(uid: i32) -> (r: Vec<u8>)
    ensures
        r@ == granted_query_spec(uid),
{
    proof {
        reveal_strlit("select 1 from policies where uid=");
        reveal_strlit(" and policy=2 limit 1");
    }
    let mut q: Vec<u8> = Vec::new();
    extend(&mut q, ascii_bytes("select 1 from policies where uid="));
    push_int(&mut q, uid as i64);
    extend(&mut q, ascii_bytes(" and policy=2 limit 1"));
    q
}

/// Root is granted when the policy query found a row.
pub fn uid_granted_root(output: &Option<Vec<u8>>) -> (r: bool)
    ensures
        r == has_row(output_view(output)),
{
    sqlite_has_row(output)
}

/// The bytes of `s` before its first space.
pub open spec fn before_space(s: Seq<u8>) -> Seq<u8>
    decreases s.len(),
{
    if s.len() == 0 || s[0] == 32 {
        Seq::empty()
    } else {
        seq![s[0]] + before_space(s.drop_first())
    }
}

proof fn lemma_before_space(s: Seq<u8>, k: int)
    requires
        0 <= k <= s.len(),
        k == s.len() || s[k] == 32,
        forall|j: int| 0 <= j < k ==> s[j] != 32,
    ensures
        before_space(s) == s.subrange(0, k),
    decreases k,
{
    if k > 0 {
        lemma_before_space(s.drop_first(), k - 1);
        assert(s.subrange(0, k) =~= seq![s[0]] + s.drop_first().subrange(0, k - 1));
    } else {
        assert(s.subrange(0, k) =~= Seq::<u8>::empty());
    }
}

/// The package that `pm list packages --uid` printed first, for the
/// deny-list query; `None` when the output names no package.
pub open spec fn denylist_query_spec(pm_output: Seq<u8>) -> Option<Seq<u8>> {
    if starts_with(pm_output, lit("package:"@)) {
        Some(
            lit("select 1 from denylist where package_name=\""@) + before_space(
                pm_output.subrange(8, pm_output.len() as int),
            ) + lit("\" limit 1"@),
        )
    } else {
        None
    }
}

/// The query that finds the package of a uid on the deny list.
pub fn denylist_query(pm_output: &[u8]) -> (r: Option<Vec<u8>>)
    ensures
        match r {
            Some(q) => denylist_query_spec(pm_output@) == Some(q@),
            None => denylist_query_spec(pm_output@) is None,
        },
{
    proof {
        reveal_strlit("package:");
        reveal_strlit("select 1 from denylist where package_name=\"");
        reveal_strlit("\" limit 1");
    }
    let prefix = ascii_bytes("package:");
    if !has_prefix(pm_output, prefix) {
        return None;
    }
    let n = pm_output.len();
    let mut k: usize = 8;
    while k < n && pm_output[k] != 32
        invariant
            8 <= k <= n == pm_output@.len(),
            forall|j: int| 8 <= j < k ==> pm_output@[j] != 32,
        decreases n - k,
    {
        k = k + 1;
    }
    let ghost rest = pm_output@.subrange(8, n as int);
    proof {
        lemma_before_space(rest, k - 8);
        assert(rest.subrange(0, k - 8) =~= pm_output@.subrange(8, k as int));
    }
    let mut q: Vec<u8> = Vec::new();
    extend(&mut q, ascii_bytes("select 1 from denylist where package_name=\""));
    let pkg = copy_range(pm_output, 8, k);
    extend(&mut q, pkg.as_slice());
    extend(&mut q, ascii_bytes("\" limit 1"));
    Some(q)
}

/// Mounts are hidden from the uid when the deny-list query found its
/// package.
pub fn uid_should_umount(output: &Option<Vec<u8>>) -> (r: bool)
    ensures
        r == has_row(output_view(output)),
{
    sqlite_has_row(output)
}

/// The manager package: the `requester` string that Magisk stores as
/// `value=<package>`, or the variant's own package when none is stored.
pub open spec fn manager_spec(requester: Option<Seq<u8>>, variant: Seq<u8>) -> Seq<u8> {
    match requester {
        Some(o) => if starts_with(trim(o), lit("value="@)) {
            trim(o).subrange(6, trim(o).len() as int)
        } else {
            variant
        },
        None => variant,
    }
}

/// Picks the manager package from the output of the `requester` query.
pub fn manager_package(requester: &Option<Vec<u8>>, variant: &[u8]) -> (r: Vec<u8>)
    ensures
        r@ == manager_spec(output_view(requester), variant@),
{
    proof {
        reveal_strlit("value=");
    }
    match requester {
        Some(o) => {
            let t = trimmed(o.as_slice());
            if has_prefix(t.as_slice(), ascii_bytes("value=")) {
                copy_range(t.as_slice(), 6, t.len())
            } else {
                copy_range(variant, 0, variant.len())
            }
        },
        None => copy_range(variant, 0, variant.len()),
    }
}

} // verus!
