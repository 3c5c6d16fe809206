//! The root backend in use, chosen once from independent probes of every
//! backend, and the uid queries answered through it.

pub mod apatch;
pub mod kernelsu;
pub mod kpatch;
pub mod magisk;

use vstd::prelude::*;
use crate::text::{ascii_bytes, extend, lit};

verus! {

/// The process-wide backend tag: one backend, or the reason there is none to
/// use.
#[derive(Debug, Clone, Copy, PartialEq, Eq, Structural)]
pub enum RootImpl {
    NoRoot,
    TooOld,
    Abnormal,
    Multiple,
    KernelSU,
    Magisk,
    Apatch,
    Kpatch,
}

impl RootImpl {
    /// A tag that names a backend the uid queries can go through.
    pub open spec fn is_supported(self) -> bool {
        self is KernelSU || self is Magisk || self is Apatch || self is Kpatch
    }

    pub fn supported(&self) -> (r: bool)
        ensures
            r == self.is_supported(),
    {
        match self {
            RootImpl::KernelSU | RootImpl::Magisk | RootImpl::Apatch | RootImpl::Kpatch => true,
            _ => false,
        }
    }

    /// The tag's name as the daemon reports it.
    pub open spec fn name_spec(self) -> Seq<char> {
        match self {
            RootImpl::NoRoot => "None"@,
            RootImpl::TooOld => "TooOld"@,
            RootImpl::Abnormal => "Abnormal"@,
            RootImpl::Multiple => "Multiple"@,
            RootImpl::KernelSU => "KernelSU"@,
            RootImpl::Magisk => "Magisk"@,
            RootImpl::Apatch => "Apatch"@,
            RootImpl::Kpatch => "Kpatch"@,
        }
    }

    /// The bytes of the tag's name.
    pub fn name_bytes(&self) -> (r: Vec<u8>)
        ensures
            r@ == lit(self.name_spec()),
    {
        let mut r: Vec<u8> = Vec::new();
        match self {
            RootImpl::NoRoot => {
                proof {
                    reveal_strlit("None");
                }
                extend(&mut r, ascii_bytes("None"));
            },
            RootImpl::TooOld => {
                proof {
                    reveal_strlit("TooOld");
                }
                extend(&mut r, ascii_bytes("TooOld"));
            },
            RootImpl::Abnormal => {
                proof {
                    reveal_strlit("Abnormal");
                }
                extend(&mut r, ascii_bytes("Abnormal"));
            },
            RootImpl::Multiple => {
                proof {
                    reveal_strlit("Multiple");
                }
                extend(&mut r, ascii_bytes("Multiple"));
            },
            RootImpl::KernelSU => {
                proof {
                    reveal_strlit("KernelSU");
                }
                extend(&mut r, ascii_bytes("KernelSU"));
            },
            RootImpl::Magisk => {
                proof {
                    reveal_strlit("Magisk");
                }
                extend(&mut r, ascii_bytes("Magisk"));
            },
            RootImpl::Apatch => {
                proof {
                    reveal_strlit("Apatch");
                }
                extend(&mut r, ascii_bytes("Apatch"));
            },
            RootImpl::Kpatch => {
                proof {
                    reveal_strlit("Kpatch");
                }
                extend(&mut r, ascii_bytes("Kpatch"));
            },
        }
        r
    }
}

/// One backend's probe, in the form common to all backends.
#[derive(Debug, Clone, Copy, PartialEq, Eq, Structural)]
pub enum Probe {
    Absent,
    Supported,
    TooOld,
    Abnormal,
}

pub open spec fn ksu_probe(v: Option<kernelsu::Version>) -> Probe {
    match v {
        None => Probe::Absent,
        Some(kernelsu::Version::Supported) => Probe::Supported,
        Some(kernelsu::Version::TooOld) => Probe::TooOld,
        Some(kernelsu::Version::Abnormal) => Probe::Abnormal,
    }
}

pub open spec fn magisk_probe(v: Option<magisk::Version>) -> Probe {
    match v {
        None => Probe::Absent,
        Some(magisk::Version::Supported) => Probe::Supported,
        Some(magisk::Version::TooOld) => Probe::TooOld,
    }
}

pub open spec fn apatch_probe(v: Option<apatch::Version>) -> Probe {
    match v {
        None => Probe::Absent,
        Some(apatch::Version::Supported) => Probe::Supported,
        Some(apatch::Version::TooOld) => Probe::TooOld,
        Some(apatch::Version::Abnormal) => Probe::Abnormal,
    }
}

pub open spec fn kpatch_probe(v: Option<kpatch::Version>) -> Probe {
    match v {
        None => Probe::Absent,
        Some(kpatch::Version::Supported) => Probe::Supported,
        Some(kpatch::Version::TooOld) => Probe::TooOld,
    }
}

pub open spec fn supported_count(k: Probe, m: Probe, a: Probe, p: Probe) -> int {
    (if k is Supported { 1int } else { 0 }) + (if m is Supported { 1int } else { 0 }) + (if a is Supported {
        1int
    } else {
        0
    }) + (if p is Supported { 1int } else { 0 })
}

/// The tie-break: two or more supported backends are `Multiple`; exactly
/// one is that backend; with none, `Abnormal` wins over `TooOld`, which wins
/// over `None`.
pub open spec fn resolve(k: Probe, m: Probe, a: Probe, p: Probe) -> RootImpl {
    if supported_count(k, m, a, p) > 1 {
        RootImpl::Multiple
    } else if k is Supported {
        RootImpl::KernelSU
    } else if m is Supported {
        RootImpl::Magisk
    } else if a is Supported {
        RootImpl::Apatch
    } else if p is Supported {
        RootImpl::Kpatch
    } else if k is Abnormal || m is Abnormal || a is Abnormal || p is Abnormal {
        RootImpl::Abnormal
    } else if k is TooOld || m is TooOld || a is TooOld || p is TooOld {
        RootImpl::TooOld
    } else {
        RootImpl::NoRoot
    }
}

fn count(p: Probe) -> (r: u8)
    ensures
        r == (if p is Supported { 1int } else { 0 }),
{
    if let Probe::Supported = p {
        1
    } else {
        0
    }
}

fn resolve_probes(k: Probe, m: Probe, a: Probe, p: Probe) -> (r: RootImpl)
    ensures
        r == resolve(k, m, a, p),
{
    let n = count(k) + count(m) + count(a) + count(p);
    if n > 1 {
        RootImpl::Multiple
    } else if k == Probe::Supported {
        RootImpl::KernelSU
    } else if m == Probe::Supported {
        RootImpl::Magisk
    } else if a == Probe::Supported {
        RootImpl::Apatch
    } else if p == Probe::Supported {
        RootImpl::Kpatch
    } else if k == Probe::Abnormal || m == Probe::Abnormal || a == Probe::Abnormal || p
        == Probe::Abnormal {
        RootImpl::Abnormal
    } else if k == Probe::TooOld || m == Probe::TooOld || a == Probe::TooOld || p
        == Probe::TooOld {
        RootImpl::TooOld
    } else {
        RootImpl::NoRoot
    }
}

/// Chooses the backend tag from the four probes.
pub fn setup(
    ksu: Option<kernelsu::Version>,
    magisk: Option<magisk::Version>,
    apatch: Option<apatch::Version>,
    kpatch: Option<kpatch::Version>,
) -> (r: RootImpl)
    ensures
        r == resolve(ksu_probe(ksu), magisk_probe(magisk), apatch_probe(apatch), kpatch_probe(kpatch)),
{
    let k = match ksu {
        None => Probe::Absent,
        Some(kernelsu::Version::Supported) => Probe::Supported,
        Some(kernelsu::Version::TooOld) => Probe::TooOld,
        Some(kernelsu::Version::Abnormal) => Probe::Abnormal,
    };
    let m = match magisk {
        None => Probe::Absent,
        Some(magisk::Version::Supported) => Probe::Supported,
        Some(magisk::Version::TooOld) => Probe::TooOld,
    };
    let a = match apatch {
        None => Probe::Absent,
        Some(apatch::Version::Supported) => Probe::Supported,
        Some(apatch::Version::TooOld) => Probe::TooOld,
        Some(apatch::Version::Abnormal) => Probe::Abnormal,
    };
    let p = match kpatch {
        None => Probe::Absent,
        Some(kpatch::Version::Supported) => Probe::Supported,
        Some(kpatch::Version::TooOld) => Probe::TooOld,
    };
    resolve_probes(k, m, a, p)
}

/// What the active backend's own channel answered to one uid query.
pub enum UidReply {
    /// The `prctl` out-parameter and response code.
    KernelSU { value: bool, code: u32 },
    /// The output of the `magisk --sqlite` query, `None` when it did not run.
    Magisk(Option<Vec<u8>>),
    /// The package-policy rows, `None` when the file could not be read.
    Apatch(Option<Vec<apatch::PackageConfig>>),
    /// The output of `sumgr list`, `None` when it did not run.
    Kpatch(Option<Vec<u8>>),
}

/// Root is granted as the active backend's reply says; a reply of another
/// backend grants nothing.
pub open spec fn granted_spec(imp: RootImpl, uid: i32, reply: &UidReply) -> bool {
    match reply {
        UidReply::KernelSU { value, code } => imp is KernelSU && *value && *code
            == kernelsu::KERNEL_SU_OPTION,
        UidReply::Magisk(o) => imp is Magisk && magisk::has_row(magisk::output_view(o)),
        UidReply::Apatch(rows) => imp is Apatch && apatch::granted_spec(apatch::rows_view(rows), uid),
        UidReply::Kpatch(o) => imp is Kpatch && kpatch::granted_spec(kpatch::output_view(o), uid),
    }
}

/// Mounts are hidden as the active backend's reply says; a reply of
/// another backend leaves them alone.
pub open spec fn umount_spec(imp: RootImpl, uid: i32, reply: &UidReply) -> bool {
    match reply {
        UidReply::KernelSU { value, code } => imp is KernelSU && *value && *code
            == kernelsu::KERNEL_SU_OPTION,
        UidReply::Magisk(o) => imp is Magisk && magisk::has_row(magisk::output_view(o)),
        UidReply::Apatch(rows) => imp is Apatch && apatch::umount_spec(apatch::rows_view(rows), uid),
        UidReply::Kpatch(o) => imp is Kpatch && kpatch::umount_spec(kpatch::output_view(o), uid),
    }
}

/// Whether `uid` holds root, from the active backend's reply to the
/// granted-root query.
pub fn uid_granted_root(imp: &RootImpl, uid: i32, reply: &UidReply) -> (r: bool)
    requires
        imp.is_supported(),
    ensures
        r == granted_spec(*imp, uid, reply),
{
    match reply {
        UidReply::KernelSU { value, code } => *imp == RootImpl::KernelSU
            && kernelsu::uid_granted_root(*value, *code),
        UidReply::Magisk(o) => *imp == RootImpl::Magisk && magisk::uid_granted_root(o),
        UidReply::Apatch(rows) => *imp == RootImpl::Apatch && apatch::uid_granted_root(rows, uid),
        UidReply::Kpatch(o) => *imp == RootImpl::Kpatch && kpatch::uid_granted_root(o, uid),
    }
}

/// Whether mounts should be hidden from `uid`, from the active backend's
/// reply to the unmount query.
pub fn uid_should_umount(imp: &RootImpl, uid: i32, reply: &UidReply) -> (r: bool)
    requires
        imp.is_supported(),
    ensures
        r == umount_spec(*imp, uid, reply),
{
    match reply {
        UidReply::KernelSU { value, code } => *imp == RootImpl::KernelSU
            && kernelsu::uid_should_umount(*value, *code),
        UidReply::Magisk(o) => *imp == RootImpl::Magisk && magisk::uid_should_umount(o),
        UidReply::Apatch(rows) => *imp == RootImpl::Apatch && apatch::uid_should_umount(rows, uid),
        UidReply::Kpatch(o) => *imp == RootImpl::Kpatch && kpatch::uid_should_umount(o, uid),
    }
}

/// `uid` is the manager app when it owns the manager's data directory;
/// `owner` is that directory's owner, `None` when it could not be read.
pub fn uid_is_manager(imp: &RootImpl, uid: i32, owner: Option<u32>) -> (r: bool)
    requires
        imp.is_supported(),
    ensures
        r == (owner == Some(uid as u32)),
{
    match owner {
        Some(o) => o == uid as u32,
        None => false,
    }
}

/// The data directory whose owner is the manager app of `imp`; `None` for
/// KPatch, which has no manager app of its own.
pub open spec fn manager_dir_spec(imp: RootImpl, requester: Option<Seq<u8>>, variant: Seq<u8>) -> Option<
    Seq<u8>,
> {
    match imp {
        RootImpl::KernelSU => Some(lit("/data/user_de/0/"@) + lit("me.weishu.kernelsu"@)),
        RootImpl::Apatch => Some(lit("/data/user_de/0/"@) + lit("me.bmax.apatch"@)),
        RootImpl::Magisk => Some(lit("/data/user_de/0/"@) + magisk::manager_spec(requester, variant)),
        _ => None,
    }
}

/// Where to look for the manager app's uid. For Magisk, `requester` is the
/// output of the `requester` string query and `variant` the package that
/// `magisk -v` named.
pub fn manager_dir(imp: &RootImpl, requester: &Option<Vec<u8>>, variant: &[u8]) -> (r: Option<
    Vec<u8>,
>)
    ensures
        match r {
            Some(d) => manager_dir_spec(*imp, magisk::output_view(requester), variant@) == Some(d@),
            None => manager_dir_spec(*imp, magisk::output_view(requester), variant@) is None,
        },
{
    proof {
        reveal_strlit("/data/user_de/0/");
        reveal_strlit("me.weishu.kernelsu");
        reveal_strlit("me.bmax.apatch");
    }
    let mut d: Vec<u8> = Vec::new();
    match imp {
        RootImpl::KernelSU => {
            extend(&mut d, ascii_bytes("/data/user_de/0/"));
            extend(&mut d, ascii_bytes("me.weishu.kernelsu"));
        },
        RootImpl::Apatch => {
            extend(&mut d, ascii_bytes("/data/user_de/0/"));
            extend(&mut d, ascii_bytes("me.bmax.apatch"));
        },
        RootImpl::Magisk => {
            extend(&mut d, ascii_bytes("/data/user_de/0/"));
            let pkg = magisk::manager_package(requester, variant);
            extend(&mut d, pkg.as_slice());
        },
        _ => {
            return None;
        },
    }
    Some(d)
}

} // verus!
