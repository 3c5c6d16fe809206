use zygiskd::text::{find, has_prefix, parse_int, push_decimal, push_int, trimmed};
use zygiskd::utils::{peer_state, LateInit, PeerState};
use zygiskd::wire::{decode_u32, decode_usize, encode_info, encode_string, encode_u32, encode_usize};

#[test]
fn integer_parsing() {
    assert_eq!(parse_int(b"42"), Some(42));
    assert_eq!(parse_int(b"+5"), Some(5));
    assert_eq!(parse_int(b"-2147483648"), Some(i32::MIN));
    assert_eq!(parse_int(b"2147483647"), Some(i32::MAX));
    assert_eq!(parse_int(b"2147483648"), None);
    assert_eq!(parse_int(b"99999999999999999999"), None);
    assert_eq!(parse_int(b"-"), None);
    assert_eq!(parse_int(b""), None);
    assert_eq!(parse_int(b"1 2"), None);
    assert_eq!(parse_int(b"007"), Some(7));
}

#[test]
fn text_helpers() {
    assert_eq!(trimmed(b" \t 26402\r\n"), b"26402".to_vec());
    assert_eq!(trimmed(b"   "), Vec::<u8>::new());
    assert!(find(b"armeabi-v7a", b"arm"));
    assert!(find(b"abc", b""));
    assert!(!find(b"ar", b"arm"));
    assert!(has_prefix(b"package:x", b"package:"));
    assert!(!has_prefix(b"pack", b"package:"));
    let mut out = Vec::new();
    push_decimal(&mut out, 0);
    out.push(b' ');
    push_decimal(&mut out, 18446744073709551615);
    out.push(b' ');
    push_int(&mut out, -10123);
    assert_eq!(out, b"0 18446744073709551615 -10123".to_vec());
}

#[test]
fn integer_frames() {
    assert_eq!(encode_u32(0x0102_0304), vec![4, 3, 2, 1]);
    assert_eq!(decode_u32(&[4, 3, 2, 1]), 0x0102_0304);
    assert_eq!(decode_u32(&10123u32.to_ne_bytes()), 10123);
    assert_eq!(encode_usize(300), 300usize.to_ne_bytes().to_vec());
    assert_eq!(decode_usize(&usize::MAX.to_ne_bytes()), usize::MAX);
    assert_eq!(decode_usize(&encode_usize(12345)), 12345);
}

#[test]
fn string_frames() {
    let mut want = 2usize.to_ne_bytes().to_vec();
    want.extend_from_slice(b"M1");
    assert_eq!(encode_string(b"M1"), want);
    assert_eq!(encode_string(b""), 0usize.to_ne_bytes().to_vec());
    assert_eq!(encode_info(6, b"ok"), vec![6, 0, 0, 0, 3, 0, 0, 0, b'o', b'k', 0]);
}

#[test]
fn set_once_cell() {
    let mut cell: LateInit<String> = LateInit::new();
    assert!(!cell.initiated());
    cell.init(String::from("magic"));
    assert!(cell.initiated());
    assert_eq!(cell.get(), "magic");
}

#[test]
fn poll_reading() {
    assert_eq!(peer_state(-1, 0), PeerState::Error);
    assert_eq!(peer_state(0, 0), PeerState::Open);
    assert_eq!(peer_state(1, 0x1), PeerState::Open);
    assert_eq!(peer_state(1, 0x10), PeerState::Closed);
    assert_eq!(peer_state(1, 0x11), PeerState::Closed);
    assert_eq!(peer_state(1, 0x8), PeerState::Closed);
}

#[test]
fn magic_paths() {
    let p = zygiskd::magic::setup(b"zygisk_a1b2");
    assert_eq!(p.magic, b"zygisk_a1b2".to_vec());
    assert_eq!(p.tmp_dir, b"/dev/zygisk_a1b2".to_vec());
    assert_eq!(p.tmp_prop, b"/dev/zygisk_a1b2/module.prop".to_vec());
    assert_eq!(p.daemon_socket(true), b"/dev/zygisk_a1b2/cp64.sock".to_vec());
    assert_eq!(p.daemon_socket(false), b"/dev/zygisk_a1b2/cp32.sock".to_vec());
}
