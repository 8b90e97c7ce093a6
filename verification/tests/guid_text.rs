use cocom_rs::guid::Guid;
use cocom_rs::iface::{iunknown_guid, iweak_guid};

#[test]
fn parse_canonical_root_identifier() {
    let g = Guid::from_str("00000000-0000-0000-C000-000000000046").unwrap();
    assert_eq!(g, iunknown_guid());
    assert_eq!(g.a, 0);
    assert_eq!(g.b, 0);
    assert_eq!(g.c, 0);
    assert_eq!(g.d, 0xC0);
    assert_eq!(g.e, 0x00);
    assert_eq!(g.k, 0x46);
}

#[test]
fn parse_weak_extension_identifier() {
    let g = Guid::from_str("9d01e165-12b5-4190-bb46-3d78413de9a5").unwrap();
    assert_eq!(g, iweak_guid());
    assert_eq!(g.a, 0x65e1019d);
    assert_eq!(g.b, 0xb512);
    assert_eq!(g.c, 0x9041);
    assert_eq!(g.d, 0xbb);
    assert_eq!(g.e, 0x46);
    assert_eq!(g.f, 0x3d);
    assert_eq!(g.g, 0x78);
    assert_eq!(g.h, 0x41);
    assert_eq!(g.i, 0x3d);
    assert_eq!(g.j, 0xe9);
    assert_eq!(g.k, 0xa5);
}

#[test]
fn format_reproduces_lowercase_text() {
    let text = "9d01e165-12b5-4190-bb46-3d78413de9a5";
    let g = Guid::from_str(text).unwrap();
    assert_eq!(g.format(), text.as_bytes().to_vec());
}

#[test]
fn format_normalizes_case() {
    let upper = "9D01E165-12B5-4190-BB46-3D78413DE9A5";
    let lower = "9d01e165-12b5-4190-bb46-3d78413de9a5";
    let g = Guid::from_str(upper).unwrap();
    assert_eq!(g, Guid::from_str(lower).unwrap());
    assert_eq!(g.format(), lower.as_bytes().to_vec());
}

#[test]
fn format_of_root_identifier() {
    let g = Guid::from_str("00000000-0000-0000-C000-000000000046").unwrap();
    assert_eq!(
        g.format(),
        b"00000000-0000-0000-c000-000000000046".to_vec()
    );
}

#[test]
fn parse_rejects_wrong_length() {
    assert!(Guid::from_str("").is_none());
    assert!(Guid::from_str("9d01e165-12b5-4190-bb46-3d78413de9a").is_none());
    assert!(Guid::from_str("9d01e165-12b5-4190-bb46-3d78413de9a55").is_none());
}

#[test]
fn parse_rejects_missing_hyphen() {
    assert!(Guid::from_str("9d01e165x12b5-4190-bb46-3d78413de9a5").is_none());
    assert!(Guid::from_str("9d01e165-12b5-4190-bb46x3d78413de9a5").is_none());
    assert!(Guid::from_str("9d01e165-12b5x4190-bb46-3d78413de9a5").is_none());
    assert!(Guid::from_str("9d01e165-12b5-4190x bb46-3d78413de9a5").is_none());
}

#[test]
fn parse_rejects_non_hex_digit() {
    assert!(Guid::from_str("9d01e165-12b5-4190-bb46-3d78413de9g5").is_none());
    assert!(Guid::from_str("zd01e165-12b5-4190-bb46-3d78413de9a5").is_none());
    assert!(Guid::from_str("9d01e165-12-5-4190-bb46-3d78413de9a5").is_none());
}

#[test]
fn decode_byte_values() {
    assert_eq!(cocom_rs::guid::decode_byte(b'9', b'd'), Some(0x9d));
    assert_eq!(cocom_rs::guid::decode_byte(b'A', b'F'), Some(0xAF));
    assert_eq!(cocom_rs::guid::decode_byte(b'0', b'0'), Some(0x00));
    assert_eq!(cocom_rs::guid::decode_byte(b'g', b'0'), None);
    assert_eq!(cocom_rs::guid::decode_byte(b'0', b'-'), None);
}

#[test]
fn from_array_little_endian_fields() {
    let g = Guid::from_array([
        0x9d, 0x01, 0xe1, 0x65, 0x12, 0xb5, 0x41, 0x90, 0xbb, 0x46, 0x3d, 0x78, 0x41, 0x3d, 0xe9,
        0xa5,
    ]);
    assert_eq!(g.a, 0x65e1019d);
    assert_eq!(g.b, 0xb512);
    assert_eq!(g.c, 0x9041);
    assert_eq!(g.d, 0xbb);
    assert_eq!(g.k, 0xa5);
}

#[test]
fn reverse_abc_swaps_first_three_fields() {
    let g = Guid::new(0x01020304, 0x0506, 0x0708, 9, 10, 11, 12, 13, 14, 15, 16);
    let r = g.reverse_abc_endianness();
    assert_eq!(r.a, 0x04030201);
    assert_eq!(r.b, 0x0605);
    assert_eq!(r.c, 0x0807);
    assert_eq!(r.d, 9);
    assert_eq!(r.k, 16);
    assert_eq!(r.reverse_abc_endianness(), g);
}

#[test]
fn u128_roundtrip_and_exact_pattern() {
    let g = Guid::new(1, 2, 3, 4, 5, 6, 7, 8, 9, 10, 11);
    let v = g.to_u128();
    let expected: u128 = 1
        + (2u128 << 32)
        + (3u128 << 48)
        + (4u128 << 64)
        + (5u128 << 72)
        + (6u128 << 80)
        + (7u128 << 88)
        + (8u128 << 96)
        + (9u128 << 104)
        + (10u128 << 112)
        + (11u128 << 120);
    assert_eq!(v, expected);
    assert_eq!(Guid::from_u128(v), g);

    let w = Guid::from_str("9d01e165-12b5-4190-bb46-3d78413de9a5").unwrap();
    assert_eq!(Guid::from_u128(w.to_u128()), w);
}

#[test]
fn equality_is_full_bit_pattern() {
    let g1 = Guid::new(1, 2, 3, 4, 5, 6, 7, 8, 9, 10, 11);
    let g2 = Guid::new(1, 2, 3, 4, 5, 6, 7, 8, 9, 10, 12);
    assert_ne!(g1, g2);
    assert_ne!(g1.to_u128(), g2.to_u128());
    assert_eq!(g1, Guid::new(1, 2, 3, 4, 5, 6, 7, 8, 9, 10, 11));
}
