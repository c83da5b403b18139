use ssbu_optimizer::error::ErrorKind;
use ssbu_optimizer::profile::{
    parse_user_profiles_save_file, profiles_data_path, UserProfile, PROFILE_DATA_SIZE,
};

fn empty_store() -> Vec<u8> {
    vec![0u8; PROFILE_DATA_SIZE]
}

fn occupy_slot(buf: &mut Vec<u8>, slot: usize, uuid0: u64, uuid1: u64, name_bytes: &[u8]) {
    let off = 16 + 200 * slot;
    buf[off..off + 8].copy_from_slice(&uuid0.to_le_bytes());
    buf[off + 8..off + 16].copy_from_slice(&uuid1.to_le_bytes());
    assert!(name_bytes.len() <= 32);
    buf[off + 40..off + 40 + name_bytes.len()].copy_from_slice(name_bytes);
}

#[test]
fn parses_three_occupied_slots_in_order() {
    let mut buf = empty_store();
    occupy_slot(&mut buf, 1, 1, 2, b"Alpha");
    occupy_slot(&mut buf, 3, 3, 4, b"Beta");
    occupy_slot(&mut buf, 5, 5, 6, b"Gamma");
    let profiles = parse_user_profiles_save_file(&buf).unwrap();
    assert_eq!(profiles.len(), 3);
    assert_eq!(profiles[0].name, "Alpha");
    assert_eq!(profiles[0].uuid0, 1);
    assert_eq!(profiles[0].uuid1, 2);
    assert_eq!(profiles[1].name, "Beta");
    assert_eq!(profiles[1].uuid0, 3);
    assert_eq!(profiles[1].uuid1, 4);
    assert_eq!(profiles[2].name, "Gamma");
    assert_eq!(profiles[2].uuid0, 5);
    assert_eq!(profiles[2].uuid1, 6);
}

#[test]
fn rejects_short_buffer() {
    let buf = vec![0u8; PROFILE_DATA_SIZE - 1];
    let err = parse_user_profiles_save_file(&buf).unwrap_err();
    assert_eq!(err.kind, ErrorKind::InvalidData);
}

#[test]
fn rejects_long_buffer() {
    let buf = vec![0u8; PROFILE_DATA_SIZE + 1];
    let err = parse_user_profiles_save_file(&buf).unwrap_err();
    assert_eq!(err.kind, ErrorKind::InvalidData);
}

#[test]
fn rejects_empty_buffer() {
    let buf: Vec<u8> = Vec::new();
    let err = parse_user_profiles_save_file(&buf).unwrap_err();
    assert_eq!(err.kind, ErrorKind::InvalidData);
}

#[test]
fn all_vacant_store_yields_no_profiles() {
    let buf = empty_store();
    let profiles = parse_user_profiles_save_file(&buf).unwrap();
    assert!(profiles.is_empty());
}

#[test]
fn slot_with_one_nonzero_uuid_word_is_occupied() {
    let mut buf = empty_store();
    occupy_slot(&mut buf, 0, 7, 0, b"OnlyFirst");
    occupy_slot(&mut buf, 7, 0, 9, b"OnlySecond");
    let profiles = parse_user_profiles_save_file(&buf).unwrap();
    assert_eq!(profiles.len(), 2);
    assert_eq!(profiles[0].name, "OnlyFirst");
    assert_eq!(profiles[1].name, "OnlySecond");
}

#[test]
fn rejects_invalid_utf8_username() {
    let mut buf = empty_store();
    occupy_slot(&mut buf, 0, 1, 1, &[0xff, 0xfe, 0x41]);
    let err = parse_user_profiles_save_file(&buf).unwrap_err();
    assert_eq!(err.kind, ErrorKind::InvalidData);
}

#[test]
fn username_is_cut_at_first_nul() {
    let mut buf = empty_store();
    // Garbage after the first NUL must not matter, even invalid UTF-8.
    occupy_slot(&mut buf, 2, 1, 1, &[b'A', b'B', 0x00, 0xff, 0xfe]);
    let profiles = parse_user_profiles_save_file(&buf).unwrap();
    assert_eq!(profiles.len(), 1);
    assert_eq!(profiles[0].name, "AB");
}

#[test]
fn username_decodes_multibyte_utf8() {
    let mut buf = empty_store();
    occupy_slot(&mut buf, 0, 10, 20, "Jörg✓".as_bytes());
    let profiles = parse_user_profiles_save_file(&buf).unwrap();
    assert_eq!(profiles[0].name, "Jörg✓");
}

#[test]
fn full_width_username_without_nul_is_kept_whole() {
    let mut buf = empty_store();
    occupy_slot(&mut buf, 0, 1, 1, b"abcdefghijklmnopqrstuvwxyz012345");
    let profiles = parse_user_profiles_save_file(&buf).unwrap();
    assert_eq!(profiles[0].name, "abcdefghijklmnopqrstuvwxyz012345");
}

#[test]
fn emu_storage_string_puts_second_word_first() {
    let profile = UserProfile { name: String::from("p"), uuid0: 0x1, uuid1: 0x2 };
    assert_eq!(
        profile.get_uuid_emu_storage_string(),
        "00000000000000020000000000000001"
    );
}

#[test]
fn emu_storage_string_uses_uppercase_hex() {
    let profile = UserProfile {
        name: String::from("p"),
        uuid0: 0xdeadbeef00c0ffee,
        uuid1: u64::MAX,
    };
    assert_eq!(
        profile.get_uuid_emu_storage_string(),
        "FFFFFFFFFFFFFFFFDEADBEEF00C0FFEE"
    );
}

#[test]
fn arc_storage_strings_are_plain_decimal() {
    let profile = UserProfile { name: String::from("p"), uuid0: 0x1, uuid1: 0x2 };
    let (a, b) = profile.get_uuid_arc_storage_strings();
    assert_eq!(a, "1");
    assert_eq!(b, "2");
}

#[test]
fn arc_storage_strings_edge_values() {
    let profile = UserProfile { name: String::from("p"), uuid0: 0, uuid1: u64::MAX };
    let (a, b) = profile.get_uuid_arc_storage_strings();
    assert_eq!(a, "0");
    assert_eq!(b, "18446744073709551615");
}

#[test]
fn profile_store_sits_at_well_known_path() {
    assert_eq!(
        profiles_data_path("/nand"),
        "/nand/system/save/8000000000000010/su/avators/profiles.dat"
    );
    assert_eq!(PROFILE_DATA_SIZE, 0x650);
}

#[test]
fn profile_equality_is_structural() {
    let a = UserProfile { name: String::from("x"), uuid0: 1, uuid1: 2 };
    let b = UserProfile { name: String::from("x"), uuid0: 1, uuid1: 2 };
    let c = UserProfile { name: String::from("y"), uuid0: 1, uuid1: 2 };
    let d = UserProfile { name: String::from("x"), uuid0: 1, uuid1: 3 };
    assert!(a == b);
    assert!(a != c);
    assert!(a != d);
}
