use win_api_wrapper::base::{
    get_multi_string_bytes_count, get_wide_string_len_from_bytes, guid_from_array,
    is_terminated_multi_string, multi_string_bytes_to_strings, wide_cstring_from_bytes,
    wide_cstring_from_units,
    wide_string_to_bytes_with_nul,
};

fn encode(units: &[u16]) -> Vec<u8> {
    let mut bytes = Vec::new();
    for unit in units {
        bytes.extend_from_slice(&unit.to_le_bytes());
    }
    bytes
}

#[test]
fn wide_len_of_empty_and_short_buffers() {
    assert_eq!(get_wide_string_len_from_bytes(&[]), 0);
    assert_eq!(get_wide_string_len_from_bytes(&[65]), 0);
    assert_eq!(get_wide_string_len_from_bytes(&[0, 0]), 0);
    assert_eq!(get_wide_string_len_from_bytes(&[65, 0]), 1);
}

#[test]
fn wide_len_stops_at_the_nul_unit() {
    assert_eq!(get_wide_string_len_from_bytes(&[65, 0, 66, 0, 0, 0, 67, 0]), 2);
    assert_eq!(get_wide_string_len_from_bytes(&[0, 0, 65, 0]), 0);
}

#[test]
fn wide_len_counts_units_whose_low_byte_is_zero() {
    // 0x0500 is not a nul unit.
    assert_eq!(get_wide_string_len_from_bytes(&[0, 5, 65, 0, 0, 0]), 2);
}

#[test]
fn wide_len_ignores_a_trailing_odd_byte() {
    assert_eq!(get_wide_string_len_from_bytes(&[65, 0, 66]), 1);
    assert_eq!(get_wide_string_len_from_bytes(&[65, 0, 66, 0, 67]), 2);
    assert_eq!(get_wide_string_len_from_bytes(&[65, 0, 0]), 1);
}

#[test]
fn wide_len_without_terminator_counts_every_unit() {
    let bytes = encode(&[0x48, 0x49, 0x263A]);
    assert_eq!(get_wide_string_len_from_bytes(&bytes), 3);
}

#[test]
fn multi_string_count() {
    let mut bytes = encode(&[0x61, 0x62, 0, 0x63, 0, 0]);
    assert!(is_terminated_multi_string(&bytes));
    assert_eq!(get_multi_string_bytes_count(&bytes), 2);
    bytes.extend_from_slice(&[9, 9, 9]);
    assert_eq!(get_multi_string_bytes_count(&bytes), 2);
    assert_eq!(get_multi_string_bytes_count(&[0, 0]), 0);
    assert_eq!(get_multi_string_bytes_count(&[]), 0);
}

#[test]
fn multi_string_without_final_empty_string_ends_with_the_bytes() {
    let bytes = encode(&[0x61, 0, 0x62, 0]);
    assert!(is_terminated_multi_string(&bytes));
    assert_eq!(get_multi_string_bytes_count(&bytes), 2);
}

#[test]
fn unterminated_multi_string_is_detected() {
    assert!(!is_terminated_multi_string(&encode(&[0x61, 0, 0x62])));
    assert!(!is_terminated_multi_string(&[65, 0]));
    assert!(!is_terminated_multi_string(&[65, 0, 0]));
    assert!(is_terminated_multi_string(&[65, 0, 0, 0]));
}

#[test]
fn multi_string_strings() {
    let bytes = encode(&[0x41, 0x42, 0, 0x43, 0, 0, 0x44, 0]);
    let strings = multi_string_bytes_to_strings(&bytes);
    assert_eq!(strings.len(), 2);
    assert_eq!(strings[0].as_slice(), &[0x41, 0x42]);
    assert_eq!(strings[1].as_slice(), &[0x43]);
    assert!(multi_string_bytes_to_strings(&[0, 0]).is_empty());
}

#[test]
fn multi_string_round_trip() {
    let strings: Vec<Vec<u16>> = vec![vec![0x68, 0x77, 0x31], vec![0x500], vec![0x7a, 0x263A]];
    let mut bytes = Vec::new();
    for s in &strings {
        bytes.extend(encode(s));
        bytes.extend_from_slice(&[0, 0]);
    }
    bytes.extend_from_slice(&[0, 0, 1, 2, 3]);
    assert_eq!(get_multi_string_bytes_count(&bytes), strings.len());
    let decoded = multi_string_bytes_to_strings(&bytes);
    let decoded: Vec<Vec<u16>> = decoded.iter().map(|s| s.as_slice().to_vec()).collect();
    assert_eq!(decoded, strings);
}

#[test]
fn wide_cstring_from_buffer() {
    let string = wide_cstring_from_bytes(&[0x50, 0, 0x51, 0, 0, 0, 0x52, 0]);
    assert_eq!(string.as_slice(), &[0x50, 0x51]);
    assert!(wide_cstring_from_bytes(&[0, 0, 5, 0]).as_slice().is_empty());
}

#[test]
fn wide_cstring_from_unit_buffer() {
    let buffer = [0x50, 0x51, 0x52, 0, 0x53];
    assert_eq!(wide_cstring_from_units(&buffer, 2).as_slice(), &[0x50, 0x51]);
    assert_eq!(wide_cstring_from_units(&buffer, 5).as_slice(), &[0x50, 0x51, 0x52]);
    assert_eq!(wide_cstring_from_units(&buffer, 99).as_slice(), &[0x50, 0x51, 0x52]);
    assert!(wide_cstring_from_units(&buffer, 0).as_slice().is_empty());
}

#[test]
fn wide_string_bytes_with_nul() {
    assert_eq!(wide_string_to_bytes_with_nul(&[0x41, 0x263A]), vec![0x41, 0, 0x3A, 0x26, 0, 0]);
    assert_eq!(wide_string_to_bytes_with_nul(&[]), vec![0, 0]);
}

#[test]
fn wide_string_round_trip() {
    let units = [0x41, 0x100, 0xFFFF, 0x7F];
    let bytes = wide_string_to_bytes_with_nul(&units);
    assert_eq!(get_wide_string_len_from_bytes(&bytes), units.len());
    assert_eq!(wide_cstring_from_bytes(&bytes).as_slice(), &units);
}

#[test]
fn guid_is_read_little_endian() {
    let bytes = [
        0x78, 0x56, 0x34, 0x12, 0x34, 0x12, 0x78, 0x56, 1, 2, 3, 4, 5, 6, 7, 8,
    ];
    let guid = guid_from_array(&bytes);
    assert_eq!(guid.data1, 0x12345678);
    assert_eq!(guid.data2, 0x1234);
    assert_eq!(guid.data3, 0x5678);
    assert_eq!(guid.data4, [1, 2, 3, 4, 5, 6, 7, 8]);
}

#[test]
fn guid_matches_windows_layout() {
    let bytes = [
        0xff, 0xee, 0xdd, 0xcc, 0xbb, 0xaa, 0x99, 0x88, 0x77, 0x66, 0x55, 0x44, 0x33, 0x22, 0x11,
        0x00,
    ];
    let guid = guid_from_array(&bytes);
    let expected = windows_sys::core::GUID::from_u128(0xccddeeff_aabb_8899_7766_554433221100);
    assert_eq!(guid.data1, expected.data1);
    assert_eq!(guid.data2, expected.data2);
    assert_eq!(guid.data3, expected.data3);
    assert_eq!(guid.data4, expected.data4);
}
