use zygiskd::root_impl::RootImpl;
use zygiskd::watchdog::{
    check_and_set_hint, check_permission, parse_prop_sections, prop_content, zygote_stopped, Decision,
    PermissionError, PropSections, Status, Supervisor, Wake, MAX_RESTART_COUNT, RESTART_WINDOW_MS,
};

fn lines(text: &str) -> Vec<Vec<u8>> {
    text.lines().map(|l| l.as_bytes().to_vec()).collect()
}

fn sample() -> PropSections {
    parse_prop_sections(&lines("id=zygisksu\nname=Zygisk Next\ndescription=Standalone implementation\nauthor=Nullptr\n"))
}

#[test]
fn permission_rules() {
    assert_eq!(check_permission(0, 0, b"u:r:su:s0\0"), Ok(()));
    assert_eq!(check_permission(0, 0, b"u:r:magisk:s0"), Ok(()));
    assert_eq!(check_permission(0, 0, b"u:r:su:s0\0\0"), Ok(()));
    assert_eq!(check_permission(2000, 0, b"u:r:su:s0"), Err(PermissionError::UidNotRoot));
    assert_eq!(check_permission(0, 2000, b"u:r:su:s0"), Err(PermissionError::GidNotRoot));
    assert_eq!(check_permission(0, 0, b"u:r:shell:s0"), Err(PermissionError::WrongContext));
    assert_eq!(check_permission(0, 0, b""), Err(PermissionError::WrongContext));
}

#[test]
fn prop_split_at_description() {
    let s = sample();
    assert_eq!(s.head, b"id=zygisksu\nname=Zygisk Next\ndescription=".to_vec());
    assert_eq!(s.description, b"Standalone implementation\nauthor=Nullptr\n".to_vec());
    let none = parse_prop_sections(&lines("id=x\n"));
    assert_eq!(none.head, b"id=x\n".to_vec());
    assert!(none.description.is_empty());
    let doubled = parse_prop_sections(&lines("description=description=twice"));
    assert_eq!(doubled.head, b"description=".to_vec());
    assert_eq!(doubled.description, b"description=twice\n".to_vec());
}

#[test]
fn sections_rebuild_file() {
    let text = "id=zygisksu\nname=Zygisk Next\ndescription=Standalone implementation\nauthor=Nullptr\n";
    let s = sample();
    let mut whole = s.head.clone();
    whole.extend_from_slice(&s.description);
    assert_eq!(whole, text.as_bytes().to_vec());
}

#[test]
fn overlay_content() {
    let s = sample();
    let text = prop_content(&s, Status::Loaded);
    let want = "id=zygisksu\nname=Zygisk Next\ndescription=[😋 Zygisksu is loaded] Standalone implementation\nauthor=Nullptr\n";
    assert_eq!(text, want.as_bytes().to_vec());
    let crashed = prop_content(&s, Status::Crashed);
    assert!(String::from_utf8(crashed).unwrap().contains("[❌ Zygiskd has crashed] "));
}

#[test]
fn hint_strings() {
    assert_eq!(Status::Loaded.text(), "😋 Zygisksu is loaded");
    assert_eq!(Status::Crashed.text(), "❌ Zygiskd has crashed");
    assert_eq!(Status::RootImplNone.text(), "❌ Unknown root implementation");
    assert_eq!(Status::RootImplTooOld.text(), "❌ Root implementation version too old");
    assert_eq!(Status::RootImplAbnormal.text(), "❌ Abnormal root implementation version");
    assert_eq!(Status::RootImplMultiple.text(), "❌ Multiple root implementations installed");
}

#[test]
fn hint_for_each_tag() {
    let s = sample();
    let (content, go_on) = check_and_set_hint(&RootImpl::Multiple, &s);
    assert!(!go_on);
    assert_eq!(content, prop_content(&s, Status::RootImplMultiple));
    let (content, go_on) = check_and_set_hint(&RootImpl::NoRoot, &s);
    assert!(!go_on);
    assert_eq!(content, prop_content(&s, Status::RootImplNone));
    let (content, go_on) = check_and_set_hint(&RootImpl::TooOld, &s);
    assert!(!go_on);
    assert_eq!(content, prop_content(&s, Status::RootImplTooOld));
    let (content, go_on) = check_and_set_hint(&RootImpl::Abnormal, &s);
    assert!(!go_on);
    assert_eq!(content, prop_content(&s, Status::RootImplAbnormal));
    for tag in [RootImpl::KernelSU, RootImpl::Magisk, RootImpl::Apatch, RootImpl::Kpatch] {
        let (content, go_on) = check_and_set_hint(&tag, &s);
        assert!(go_on);
        assert_eq!(content, prop_content(&s, Status::Loaded));
    }
}

#[test]
fn six_quick_deaths_give_up() {
    let mut s = Supervisor::new(1_000);
    let mut decisions = Vec::new();
    for k in 1..=6u64 {
        decisions.push(s.on_wake(Wake::DaemonDied, 1_000 + k * 1_000));
        if decisions.last() == Some(&Decision::GiveUp) {
            break;
        }
    }
    assert_eq!(decisions.len(), 5);
    assert_eq!(decisions[4], Decision::GiveUp);
    assert_eq!(decisions[0], Decision::Respawn { restart_zygote: true });
    assert_eq!(s.lives, 1);
}

#[test]
fn spaced_deaths_never_give_up() {
    let mut s = Supervisor::new(0);
    for k in 1..=5u64 {
        let d = s.on_wake(Wake::DaemonDied, k * 31_000);
        assert_eq!(d, Decision::Respawn { restart_zygote: true });
        assert_eq!(s.lives, MAX_RESTART_COUNT);
    }
    for k in 6..=40u64 {
        assert_ne!(s.on_wake(Wake::DaemonDied, k * RESTART_WINDOW_MS), Decision::GiveUp);
    }
}

#[test]
fn window_boundary_restores_lives() {
    let mut s = Supervisor::new(0);
    s.on_wake(Wake::DaemonDied, 10);
    assert_eq!(s.lives, 4);
    s.on_wake(Wake::DaemonDied, 10 + RESTART_WINDOW_MS - 1);
    assert_eq!(s.lives, 3);
    s.on_wake(Wake::DaemonDied, 10 + 2 * RESTART_WINDOW_MS - 1);
    assert_eq!(s.lives, MAX_RESTART_COUNT);
    assert_eq!(s.last_restart_ms, 10 + 2 * RESTART_WINDOW_MS - 1);
}

#[test]
fn zygote_restart_latch() {
    let mut s = Supervisor::new(0);
    let d = s.on_wake(Wake::ZygoteRestarted, 40_000);
    assert_eq!(d, Decision::Respawn { restart_zygote: false });
    s.record_restart(17);
    assert_eq!(s.restart_serial, 17);
    assert!(!s.is_unexpected_restart(17));
    assert!(s.is_unexpected_restart(18));
    assert!(zygote_stopped(b"running", b"stopped"));
    assert!(zygote_stopped(b"running", b""));
    assert!(!zygote_stopped(b"running", b"running"));
    assert!(!zygote_stopped(b"restarting", b"stopped"));
}
