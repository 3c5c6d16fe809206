use zygiskd::root_impl::apatch::{self, PackageConfig};
use zygiskd::root_impl::kernelsu::{self, KERNEL_SU_OPTION};
use zygiskd::root_impl::kpatch;
use zygiskd::root_impl::magisk;
use zygiskd::root_impl::{manager_dir, setup, uid_granted_root, uid_is_manager, uid_should_umount, RootImpl, UidReply};

const MIN_KSU: i32 = 10940;
const MAX_KSU: i32 = 20000;

fn row(uid: i32, allow: i32, exclude: i32) -> PackageConfig {
    PackageConfig {
        pkg: format!("pkg{}", uid),
        exclude,
        allow,
        uid,
        to_uid: 0,
        sctx: String::from("u:r:untrusted_app:s0"),
    }
}

#[test]
fn kernelsu_version_classes() {
    assert_eq!(kernelsu::get_kernel_su(0, MIN_KSU, MAX_KSU), None);
    assert_eq!(kernelsu::get_kernel_su(MIN_KSU, MIN_KSU, MAX_KSU), Some(kernelsu::Version::Supported));
    assert_eq!(kernelsu::get_kernel_su(MAX_KSU, MIN_KSU, MAX_KSU), Some(kernelsu::Version::Supported));
    assert_eq!(kernelsu::get_kernel_su(MAX_KSU + 1, MIN_KSU, MAX_KSU), Some(kernelsu::Version::Abnormal));
    assert_eq!(kernelsu::get_kernel_su(1, MIN_KSU, MAX_KSU), Some(kernelsu::Version::TooOld));
    assert_eq!(kernelsu::get_kernel_su(MIN_KSU - 1, MIN_KSU, MAX_KSU), Some(kernelsu::Version::TooOld));
    assert_eq!(kernelsu::get_kernel_su(-3, MIN_KSU, MAX_KSU), Some(kernelsu::Version::Abnormal));
}

#[test]
fn kernelsu_reply_needs_option_echo() {
    assert!(kernelsu::uid_granted_root(true, KERNEL_SU_OPTION));
    assert!(!kernelsu::uid_granted_root(true, 0));
    assert!(!kernelsu::uid_granted_root(false, KERNEL_SU_OPTION));
    assert!(kernelsu::uid_should_umount(true, 0xdeadbeef));
    assert!(!kernelsu::uid_should_umount(true, 1));
}

#[test]
fn apatch_version_classes() {
    assert_eq!(apatch::get_apatch(b"10763\n", 10655), Some(apatch::Version::Supported));
    assert_eq!(apatch::get_apatch(b"  999999 ", 10655), Some(apatch::Version::Supported));
    assert_eq!(apatch::get_apatch(b"1000000", 10655), Some(apatch::Version::Abnormal));
    assert_eq!(apatch::get_apatch(b"-7", 10655), Some(apatch::Version::Abnormal));
    assert_eq!(apatch::get_apatch(b"10654", 10655), Some(apatch::Version::TooOld));
    assert_eq!(apatch::get_apatch(b"0", 10655), None);
    assert_eq!(apatch::get_apatch(b"", 10655), None);
    assert_eq!(apatch::get_apatch(b"ten", 10655), None);
}

#[test]
fn apatch_first_row_decides() {
    let rows = Some(vec![row(10001, 0, 0), row(10001, 1, 1), row(10002, 1, 0)]);
    assert!(!apatch::uid_granted_root(&rows, 10001));
    assert!(!apatch::uid_should_umount(&rows, 10001));
    assert!(apatch::uid_granted_root(&rows, 10002));
    assert!(!apatch::uid_should_umount(&rows, 10002));
    assert!(!apatch::uid_granted_root(&rows, 10003));
    assert!(apatch::uid_should_umount(&rows, 10003));
    let unreadable: Option<Vec<PackageConfig>> = None;
    assert!(!apatch::uid_granted_root(&unreadable, 10002));
    assert!(!apatch::uid_should_umount(&unreadable, 10002));
    let excluded = Some(vec![row(10004, 0, 2)]);
    assert!(apatch::uid_should_umount(&excluded, 10004));
}

#[test]
fn magisk_version_and_variant() {
    assert_eq!(magisk::get_magisk(b"26402\n", 26402), Some(magisk::Version::Supported));
    assert_eq!(magisk::get_magisk(b"26100\n", 26402), Some(magisk::Version::TooOld));
    assert_eq!(magisk::get_magisk(b"", 26402), None);
    assert_eq!(magisk::get_magisk(b"0\n", 26402), None);
    assert_eq!(magisk::get_magisk(b"-5", 26402), Some(magisk::Version::TooOld));
    assert_eq!(magisk::get_magisk(b"+27000", 26402), Some(magisk::Version::Supported));
    assert_eq!(magisk::magisk_variant(b"27.0:MAGISK:R (alpha)\n"), "io.github.vvb2060.magisk");
    assert_eq!(magisk::magisk_variant(b"26.4-kitsune:MAGISK:D"), "io.github.huskydg.magisk");
    assert_eq!(magisk::magisk_variant(b"27.0:MAGISK:R"), "com.topjohnwu.magisk");
}

#[test]
fn magisk_queries() {
    assert_eq!(
        magisk::granted_root_query(10123),
        b"select 1 from policies where uid=10123 and policy=2 limit 1".to_vec()
    );
    assert_eq!(
        magisk::granted_root_query(-1),
        b"select 1 from policies where uid=-1 and policy=2 limit 1".to_vec()
    );
    assert_eq!(
        magisk::denylist_query(b"package:com.foo uid:10123\n"),
        Some(b"select 1 from denylist where package_name=\"com.foo\" limit 1".to_vec())
    );
    assert_eq!(
        magisk::denylist_query(b"package:com.bar"),
        Some(b"select 1 from denylist where package_name=\"com.bar\" limit 1".to_vec())
    );
    assert_eq!(magisk::denylist_query(b""), None);
    assert_eq!(magisk::denylist_query(b"Error: unknown"), None);
    assert!(magisk::uid_granted_root(&Some(b"1\n".to_vec())));
    assert!(!magisk::uid_granted_root(&Some(Vec::new())));
    assert!(!magisk::uid_granted_root(&None));
    assert!(magisk::uid_should_umount(&Some(b"1".to_vec())));
    assert!(!magisk::uid_should_umount(&None));
}

#[test]
fn magisk_manager_package() {
    let official = b"com.topjohnwu.magisk";
    assert_eq!(
        magisk::manager_package(&Some(b"value=io.hidden.app\n".to_vec()), official),
        b"io.hidden.app".to_vec()
    );
    assert_eq!(magisk::manager_package(&Some(Vec::new()), official), official.to_vec());
    assert_eq!(magisk::manager_package(&None, official), official.to_vec());
    assert_eq!(magisk::manager_package(&Some(b"key=x".to_vec()), official), official.to_vec());
}

#[test]
fn kpatch_lists() {
    assert_eq!(kpatch::get_kpatch(b"3\n", 2), Some(kpatch::Version::Supported));
    assert_eq!(kpatch::get_kpatch(b"1\n", 2), Some(kpatch::Version::TooOld));
    assert_eq!(kpatch::get_kpatch(b"usage", 2), None);
    assert_eq!(kpatch::get_kpatch(b"0", 2), None);
    let out = Some(b"10001\n  10123  \n0\n".to_vec());
    assert!(kpatch::uid_granted_root(&out, 10123));
    assert!(kpatch::uid_granted_root(&out, 0));
    assert!(!kpatch::uid_granted_root(&out, 101));
    assert!(!kpatch::uid_granted_root(&None, 10123));
    assert!(kpatch::uid_granted_root(&Some(b"10123".to_vec()), 10123));
    assert!(!kpatch::uid_should_umount(&out, 10123));
    assert!(kpatch::uid_should_umount(&Some(b"1\n".to_vec()), 10123));
    assert!(kpatch::uid_should_umount(&None, 10123));
}

fn ksu(p: usize) -> Option<kernelsu::Version> {
    [None, Some(kernelsu::Version::TooOld), Some(kernelsu::Version::Abnormal), Some(kernelsu::Version::Supported)][p]
}

fn ap(p: usize) -> Option<apatch::Version> {
    [None, Some(apatch::Version::TooOld), Some(apatch::Version::Abnormal), Some(apatch::Version::Supported)][p]
}

#[test]
fn tie_break_every_pair() {
    // Probe classes by index: 0 absent, 1 too old, 2 abnormal, 3 supported.
    for a in 0..4 {
        for b in 0..4 {
            let got = setup(ksu(a), None, ap(b), None);
            let want = if a == 3 && b == 3 {
                RootImpl::Multiple
            } else if a == 3 {
                RootImpl::KernelSU
            } else if b == 3 {
                RootImpl::Apatch
            } else if a == 2 || b == 2 {
                RootImpl::Abnormal
            } else if a == 1 || b == 1 {
                RootImpl::TooOld
            } else {
                RootImpl::NoRoot
            };
            assert_eq!(got, want, "ksu class {} apatch class {}", a, b);
        }
    }
}

#[test]
fn tie_break_magisk_kpatch() {
    assert_eq!(setup(None, Some(magisk::Version::Supported), None, Some(kpatch::Version::Supported)), RootImpl::Multiple);
    assert_eq!(setup(None, Some(magisk::Version::TooOld), None, Some(kpatch::Version::Supported)), RootImpl::Kpatch);
    assert_eq!(setup(None, Some(magisk::Version::Supported), None, Some(kpatch::Version::TooOld)), RootImpl::Magisk);
    assert_eq!(setup(None, Some(magisk::Version::TooOld), None, None), RootImpl::TooOld);
    assert_eq!(setup(None, None, None, None), RootImpl::NoRoot);
}

#[test]
fn multi_install_is_multiple() {
    let tag = setup(Some(kernelsu::Version::Supported), Some(magisk::Version::Supported), None, None);
    assert_eq!(tag, RootImpl::Multiple);
}

#[test]
fn uid_queries_go_through_active_backend() {
    let ksu_yes = UidReply::KernelSU { value: true, code: KERNEL_SU_OPTION };
    assert!(uid_granted_root(&RootImpl::KernelSU, 10123, &ksu_yes));
    assert!(uid_should_umount(&RootImpl::KernelSU, 10123, &ksu_yes));
    assert!(!uid_granted_root(&RootImpl::Magisk, 10123, &ksu_yes));
    let magisk_row = UidReply::Magisk(Some(b"1".to_vec()));
    assert!(uid_granted_root(&RootImpl::Magisk, 10123, &magisk_row));
    let rows = UidReply::Apatch(Some(vec![row(10123, 1, 0)]));
    assert!(uid_granted_root(&RootImpl::Apatch, 10123, &rows));
    assert!(!uid_should_umount(&RootImpl::Apatch, 10123, &rows));
    let list = UidReply::Kpatch(Some(b"10123\n".to_vec()));
    assert!(uid_granted_root(&RootImpl::Kpatch, 10123, &list));
    assert!(!uid_should_umount(&RootImpl::Kpatch, 10123, &list));
    assert!(uid_is_manager(&RootImpl::KernelSU, 10050, Some(10050)));
    assert!(!uid_is_manager(&RootImpl::KernelSU, 10050, Some(10051)));
    assert!(!uid_is_manager(&RootImpl::KernelSU, 10050, None));
}

#[test]
fn manager_directories() {
    let none: Option<Vec<u8>> = None;
    assert_eq!(
        manager_dir(&RootImpl::KernelSU, &none, b""),
        Some(b"/data/user_de/0/me.weishu.kernelsu".to_vec())
    );
    assert_eq!(manager_dir(&RootImpl::Apatch, &none, b""), Some(b"/data/user_de/0/me.bmax.apatch".to_vec()));
    assert_eq!(
        manager_dir(&RootImpl::Magisk, &Some(b"value=io.stub\n".to_vec()), b"com.topjohnwu.magisk"),
        Some(b"/data/user_de/0/io.stub".to_vec())
    );
    assert_eq!(
        manager_dir(&RootImpl::Magisk, &none, b"com.topjohnwu.magisk"),
        Some(b"/data/user_de/0/com.topjohnwu.magisk".to_vec())
    );
    assert_eq!(manager_dir(&RootImpl::Kpatch, &none, b""), None);
    assert_eq!(manager_dir(&RootImpl::Multiple, &none, b""), None);
}

#[test]
fn tag_names() {
    assert_eq!(RootImpl::KernelSU.name_bytes(), b"KernelSU".to_vec());
    assert_eq!(RootImpl::NoRoot.name_bytes(), b"None".to_vec());
    assert!(RootImpl::Kpatch.supported());
    assert!(!RootImpl::Multiple.supported());
}
