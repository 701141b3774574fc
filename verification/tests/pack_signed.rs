#![allow(unused_imports)]
use mtp_rs::ptp::pack::{
    pack_datetime, pack_i16, pack_i32, pack_i64, pack_i8, pack_string, pack_u16, pack_u16_array,
    pack_u32, pack_u32_array, pack_u64, pack_u8, unpack_datetime, unpack_i16, unpack_i32,
    unpack_i64, unpack_i8, unpack_string, unpack_u16, unpack_u16_array, unpack_u32,
    unpack_u32_array, unpack_u64, unpack_u8, DateTime,
};

#[test]
fn mod_pack_u8_test() {
    assert_eq!(pack_u8(0x00), [0x00]);
    assert_eq!(pack_u8(0xFF), [0xFF]);
    assert_eq!(pack_u8(0x42), [0x42]);
}

#[test]
fn mod_pack_u16_little_endian() {
    assert_eq!(pack_u16(0x0000), [0x00, 0x00]);
    assert_eq!(pack_u16(0xFFFF), [0xFF, 0xFF]);
    assert_eq!(pack_u16(0x1234), [0x34, 0x12]);
    assert_eq!(pack_u16(0x0001), [0x01, 0x00]);
}

#[test]
fn mod_pack_u32_little_endian() {
    assert_eq!(pack_u32(0x00000000), [0x00, 0x00, 0x00, 0x00]);
    assert_eq!(pack_u32(0xFFFFFFFF), [0xFF, 0xFF, 0xFF, 0xFF]);
    assert_eq!(pack_u32(0x12345678), [0x78, 0x56, 0x34, 0x12]);
    assert_eq!(pack_u32(0x00000001), [0x01, 0x00, 0x00, 0x00]);
}

#[test]
fn mod_pack_u64_little_endian() {
    assert_eq!(
        pack_u64(0x0102030405060708),
        [0x08, 0x07, 0x06, 0x05, 0x04, 0x03, 0x02, 0x01]
    );
}

#[test]
fn mod_unpack_u8_test() {
    assert_eq!(unpack_u8(&[0x00]).unwrap(), 0x00);
    assert_eq!(unpack_u8(&[0xFF]).unwrap(), 0xFF);
    assert_eq!(unpack_u8(&[0x42]).unwrap(), 0x42);
    assert_eq!(unpack_u8(&[0x42, 0x00]).unwrap(), 0x42); // Extra bytes ignored
}

#[test]
fn mod_unpack_u16_little_endian() {
    assert_eq!(unpack_u16(&[0x00, 0x00]).unwrap(), 0x0000);
    assert_eq!(unpack_u16(&[0xFF, 0xFF]).unwrap(), 0xFFFF);
    assert_eq!(unpack_u16(&[0x34, 0x12]).unwrap(), 0x1234);
    assert_eq!(unpack_u16(&[0x01, 0x00]).unwrap(), 0x0001);
}

#[test]
fn mod_unpack_u32_little_endian() {
    assert_eq!(unpack_u32(&[0x00, 0x00, 0x00, 0x00]).unwrap(), 0x00000000);
    assert_eq!(unpack_u32(&[0xFF, 0xFF, 0xFF, 0xFF]).unwrap(), 0xFFFFFFFF);
    assert_eq!(unpack_u32(&[0x78, 0x56, 0x34, 0x12]).unwrap(), 0x12345678);
    assert_eq!(unpack_u32(&[0x01, 0x00, 0x00, 0x00]).unwrap(), 0x00000001);
}

#[test]
fn mod_unpack_u64_little_endian() {
    assert_eq!(
        unpack_u64(&[0x08, 0x07, 0x06, 0x05, 0x04, 0x03, 0x02, 0x01]).unwrap(),
        0x0102030405060708
    );
}

#[test]
fn mod_unpack_u8_insufficient_bytes() {
    assert!(unpack_u8(&[]).is_err());
}

#[test]
fn mod_unpack_u16_insufficient_bytes() {
    assert!(unpack_u16(&[]).is_err());
    assert!(unpack_u16(&[0x00]).is_err());
}

#[test]
fn mod_unpack_u32_insufficient_bytes() {
    assert!(unpack_u32(&[]).is_err());
    assert!(unpack_u32(&[0x00]).is_err());
    assert!(unpack_u32(&[0x00, 0x00]).is_err());
    assert!(unpack_u32(&[0x00, 0x00, 0x00]).is_err());
}

#[test]
fn mod_unpack_u64_insufficient_bytes() {
    assert!(unpack_u64(&[]).is_err());
    assert!(unpack_u64(&[0x00; 7]).is_err());
}

#[test]
fn mod_roundtrip_u8() {
    for val in [0u8, 1, 127, 128, 255] {
        assert_eq!(unpack_u8(&pack_u8(val)).unwrap(), val);
    }
}

#[test]
fn mod_roundtrip_u16() {
    for val in [0u16, 1, 255, 256, 0x1234, 0xFFFF] {
        assert_eq!(unpack_u16(&pack_u16(val)).unwrap(), val);
    }
}

#[test]
fn mod_roundtrip_u32() {
    for val in [0u32, 1, 255, 256, 0x12345678, 0xFFFFFFFF] {
        assert_eq!(unpack_u32(&pack_u32(val)).unwrap(), val);
    }
}

#[test]
fn mod_roundtrip_u64() {
    for val in [0u64, 1, 255, 256, 0x0102030405060708, 0xFFFFFFFFFFFFFFFF] {
        assert_eq!(unpack_u64(&pack_u64(val)).unwrap(), val);
    }
}

#[test]
fn pack_i8_test() {
    assert_eq!(pack_i8(0), [0x00]);
    assert_eq!(pack_i8(1), [0x01]);
    assert_eq!(pack_i8(-1), [0xFF]);
    assert_eq!(pack_i8(127), [0x7F]);
    assert_eq!(pack_i8(-128), [0x80]);
}

#[test]
fn pack_i16_little_endian() {
    assert_eq!(pack_i16(0), [0x00, 0x00]);
    assert_eq!(pack_i16(1), [0x01, 0x00]);
    assert_eq!(pack_i16(-1), [0xFF, 0xFF]);
    assert_eq!(pack_i16(0x1234), [0x34, 0x12]);
    assert_eq!(pack_i16(-2), [0xFE, 0xFF]);
    assert_eq!(pack_i16(32767), [0xFF, 0x7F]);
    assert_eq!(pack_i16(-32768), [0x00, 0x80]);
}

#[test]
fn pack_i32_little_endian() {
    assert_eq!(pack_i32(0), [0x00, 0x00, 0x00, 0x00]);
    assert_eq!(pack_i32(1), [0x01, 0x00, 0x00, 0x00]);
    assert_eq!(pack_i32(-1), [0xFF, 0xFF, 0xFF, 0xFF]);
    assert_eq!(pack_i32(0x12345678), [0x78, 0x56, 0x34, 0x12]);
    assert_eq!(pack_i32(-2), [0xFE, 0xFF, 0xFF, 0xFF]);
}

#[test]
fn pack_i64_little_endian() {
    assert_eq!(
        pack_i64(0x0102030405060708),
        [0x08, 0x07, 0x06, 0x05, 0x04, 0x03, 0x02, 0x01]
    );
    assert_eq!(
        pack_i64(-1),
        [0xFF, 0xFF, 0xFF, 0xFF, 0xFF, 0xFF, 0xFF, 0xFF]
    );
}

#[test]
fn unpack_i8_test() {
    assert_eq!(unpack_i8(&[0x00]).unwrap(), 0);
    assert_eq!(unpack_i8(&[0x01]).unwrap(), 1);
    assert_eq!(unpack_i8(&[0xFF]).unwrap(), -1);
    assert_eq!(unpack_i8(&[0x7F]).unwrap(), 127);
    assert_eq!(unpack_i8(&[0x80]).unwrap(), -128);
    assert_eq!(unpack_i8(&[0x80, 0x00]).unwrap(), -128); // Extra bytes ignored
}

#[test]
fn unpack_i16_little_endian() {
    assert_eq!(unpack_i16(&[0x00, 0x00]).unwrap(), 0);
    assert_eq!(unpack_i16(&[0xFF, 0xFF]).unwrap(), -1);
    assert_eq!(unpack_i16(&[0x34, 0x12]).unwrap(), 0x1234);
    assert_eq!(unpack_i16(&[0xFE, 0xFF]).unwrap(), -2);
    assert_eq!(unpack_i16(&[0xFF, 0x7F]).unwrap(), 32767);
    assert_eq!(unpack_i16(&[0x00, 0x80]).unwrap(), -32768);
}

#[test]
fn unpack_i32_little_endian() {
    assert_eq!(unpack_i32(&[0x00, 0x00, 0x00, 0x00]).unwrap(), 0);
    assert_eq!(unpack_i32(&[0xFF, 0xFF, 0xFF, 0xFF]).unwrap(), -1);
    assert_eq!(unpack_i32(&[0x78, 0x56, 0x34, 0x12]).unwrap(), 0x12345678);
    assert_eq!(unpack_i32(&[0xFE, 0xFF, 0xFF, 0xFF]).unwrap(), -2);
}

#[test]
fn unpack_i64_little_endian() {
    assert_eq!(
        unpack_i64(&[0x08, 0x07, 0x06, 0x05, 0x04, 0x03, 0x02, 0x01]).unwrap(),
        0x0102030405060708
    );
    assert_eq!(
        unpack_i64(&[0xFF, 0xFF, 0xFF, 0xFF, 0xFF, 0xFF, 0xFF, 0xFF]).unwrap(),
        -1
    );
}

#[test]
fn unpack_i8_insufficient_bytes() {
    assert!(unpack_i8(&[]).is_err());
}

#[test]
fn unpack_i16_insufficient_bytes() {
    assert!(unpack_i16(&[]).is_err());
    assert!(unpack_i16(&[0x00]).is_err());
}

#[test]
fn unpack_i32_insufficient_bytes() {
    assert!(unpack_i32(&[]).is_err());
    assert!(unpack_i32(&[0x00]).is_err());
    assert!(unpack_i32(&[0x00, 0x00]).is_err());
    assert!(unpack_i32(&[0x00, 0x00, 0x00]).is_err());
}

#[test]
fn unpack_i64_insufficient_bytes() {
    assert!(unpack_i64(&[]).is_err());
    assert!(unpack_i64(&[0x00; 7]).is_err());
}

#[test]
fn roundtrip_i8() {
    for val in [0i8, 1, -1, 127, -128, 42, -42] {
        assert_eq!(unpack_i8(&pack_i8(val)).unwrap(), val);
    }
}

#[test]
fn roundtrip_i16() {
    for val in [0i16, 1, -1, 255, -255, 32767, -32768, 0x1234, -0x1234] {
        assert_eq!(unpack_i16(&pack_i16(val)).unwrap(), val);
    }
}

#[test]
fn roundtrip_i32() {
    for val in [0i32, 1, -1, 255, -255, 0x12345678, -0x12345678] {
        assert_eq!(unpack_i32(&pack_i32(val)).unwrap(), val);
    }
}

#[test]
fn roundtrip_i64() {
    for val in [
        0i64,
        1,
        -1,
        255,
        -255,
        0x0102030405060708,
        -0x0102030405060708,
    ] {
        assert_eq!(unpack_i64(&pack_i64(val)).unwrap(), val);
    }
}

#[test]
fn mod_pack_string_empty() {
    assert_eq!(pack_string(""), vec![0x00]);
}

#[test]
fn mod_pack_string_ascii() {
    assert_eq!(
        pack_string("Hi"),
        vec![
            0x03, // length = 3
            0x48, 0x00, // 'H'
            0x69, 0x00, // 'i'
            0x00, 0x00, // null
        ]
    );
}

#[test]
fn mod_pack_string_single_char() {
    assert_eq!(
        pack_string("A"),
        vec![
            0x02, // length = 2 (char + null)
            0x41, 0x00, // 'A'
            0x00, 0x00, // null
        ]
    );
}

#[test]
fn mod_pack_string_japanese() {
    // Test with Japanese characters (BMP characters, no surrogate pairs needed)
    let s = "\u{3053}\u{3093}\u{306B}\u{3061}\u{306F}"; // "konnichiwa" in hiragana
    let packed = pack_string(s);
    assert_eq!(packed[0], 6); // 5 chars + null
    assert_eq!(packed.len(), 1 + 6 * 2); // 1 byte length + 6 UTF-16 code units * 2 bytes
}

#[test]
fn mod_pack_string_emoji_surrogate_pair() {
    // Emoji outside BMP require surrogate pairs in UTF-16
    let s = "\u{1F600}"; // Grinning face emoji
    let packed = pack_string(s);
    // UTF-16 encoding: surrogate pair (2 code units) + null = 3 code units
    assert_eq!(packed[0], 3);
    // High surrogate: 0xD83D, Low surrogate: 0xDE00
    assert_eq!(packed[1], 0x3D); // Low byte of 0xD83D
    assert_eq!(packed[2], 0xD8); // High byte of 0xD83D
    assert_eq!(packed[3], 0x00); // Low byte of 0xDE00
    assert_eq!(packed[4], 0xDE); // High byte of 0xDE00
    assert_eq!(packed[5], 0x00); // Null low
    assert_eq!(packed[6], 0x00); // Null high
}

#[test]
fn mod_unpack_string_empty() {
    let (s, consumed) = unpack_string(&[0x00]).unwrap();
    assert_eq!(s, "");
    assert_eq!(consumed, 1);
}

#[test]
fn mod_unpack_string_ascii() {
    let buf = vec![
        0x03, // length = 3
        0x48, 0x00, // 'H'
        0x69, 0x00, // 'i'
        0x00, 0x00, // null
    ];
    let (s, consumed) = unpack_string(&buf).unwrap();
    assert_eq!(s, "Hi");
    assert_eq!(consumed, 7);
}

#[test]
fn mod_unpack_string_with_extra_data() {
    let buf = vec![
        0x02, // length = 2
        0x41, 0x00, // 'A'
        0x00, 0x00, // null
        0xFF, 0xFF, // extra data (should be ignored)
    ];
    let (s, consumed) = unpack_string(&buf).unwrap();
    assert_eq!(s, "A");
    assert_eq!(consumed, 5);
}

#[test]
fn mod_unpack_string_insufficient_bytes_for_length() {
    assert!(unpack_string(&[]).is_err());
}

#[test]
fn mod_unpack_string_insufficient_bytes_for_content() {
    // Says length is 3 (6 bytes of content) but only provides 2 bytes
    assert!(unpack_string(&[0x03, 0x41, 0x00]).is_err());
}

#[test]
fn mod_unpack_string_invalid_utf16() {
    // Invalid surrogate pair: high surrogate without low surrogate
    let buf = vec![
        0x02, // length = 2
        0x00, 0xD8, // Invalid high surrogate alone (0xD800)
        0x00, 0x00, // null
    ];
    assert!(unpack_string(&buf).is_err());
}

#[test]
fn mod_roundtrip_string_empty() {
    let (s, _) = unpack_string(&pack_string("")).unwrap();
    assert_eq!(s, "");
}

#[test]
fn mod_roundtrip_string_ascii() {
    let original = "Hello, World!";
    let (s, _) = unpack_string(&pack_string(original)).unwrap();
    assert_eq!(s, original);
}

#[test]
fn mod_roundtrip_string_unicode() {
    let test_strings = [
        "Hello",
        "\u{00E9}",                                 // e with acute accent (BMP)
        "\u{3053}\u{3093}\u{306B}\u{3061}\u{306F}", // Japanese hiragana
        "\u{1F600}",                                // emoji (surrogate pair)
        "Mixed: Hello \u{4E16}\u{754C} \u{1F310}",  // mixed with emoji
    ];

    for original in test_strings {
        let (s, _) = unpack_string(&pack_string(original)).unwrap();
        assert_eq!(s, original, "Round-trip failed for: {}", original);
    }
}

#[test]
fn mod_pack_u16_array_empty() {
    assert_eq!(pack_u16_array(&[]), vec![0x00, 0x00, 0x00, 0x00]);
}

#[test]
fn mod_pack_u16_array_single() {
    assert_eq!(
        pack_u16_array(&[0x1234]),
        vec![
            0x01, 0x00, 0x00, 0x00, // count = 1
            0x34, 0x12, // 0x1234
        ]
    );
}

#[test]
fn mod_pack_u16_array_multiple() {
    assert_eq!(
        pack_u16_array(&[1, 2, 3]),
        vec![
            0x03, 0x00, 0x00, 0x00, // count = 3
            0x01, 0x00, // 1
            0x02, 0x00, // 2
            0x03, 0x00, // 3
        ]
    );
}

#[test]
fn mod_pack_u32_array_empty() {
    assert_eq!(pack_u32_array(&[]), vec![0x00, 0x00, 0x00, 0x00]);
}

#[test]
fn mod_pack_u32_array_multiple() {
    assert_eq!(
        pack_u32_array(&[1, 2, 3]),
        vec![
            0x03, 0x00, 0x00, 0x00, // count = 3
            0x01, 0x00, 0x00, 0x00, // 1
            0x02, 0x00, 0x00, 0x00, // 2
            0x03, 0x00, 0x00, 0x00, // 3
        ]
    );
}

#[test]
fn mod_unpack_u16_array_empty() {
    let (arr, consumed) = unpack_u16_array(&[0x00, 0x00, 0x00, 0x00]).unwrap();
    assert!(arr.is_empty());
    assert_eq!(consumed, 4);
}

#[test]
fn mod_unpack_u16_array_multiple() {
    let buf = vec![
        0x03, 0x00, 0x00, 0x00, // count = 3
        0x01, 0x00, // 1
        0x02, 0x00, // 2
        0x03, 0x00, // 3
    ];
    let (arr, consumed) = unpack_u16_array(&buf).unwrap();
    assert_eq!(arr, vec![1, 2, 3]);
    assert_eq!(consumed, 10);
}

#[test]
fn mod_unpack_u32_array_empty() {
    let (arr, consumed) = unpack_u32_array(&[0x00, 0x00, 0x00, 0x00]).unwrap();
    assert!(arr.is_empty());
    assert_eq!(consumed, 4);
}

#[test]
fn mod_unpack_u32_array_multiple() {
    let buf = vec![
        0x03, 0x00, 0x00, 0x00, // count = 3
        0x01, 0x00, 0x00, 0x00, // 1
        0x02, 0x00, 0x00, 0x00, // 2
        0x03, 0x00, 0x00, 0x00, // 3
    ];
    let (arr, consumed) = unpack_u32_array(&buf).unwrap();
    assert_eq!(arr, vec![1, 2, 3]);
    assert_eq!(consumed, 16);
}

#[test]
fn mod_unpack_u16_array_with_extra_data() {
    let buf = vec![
        0x01, 0x00, 0x00, 0x00, // count = 1
        0x34, 0x12, // 0x1234
        0xFF, 0xFF, // extra data
    ];
    let (arr, consumed) = unpack_u16_array(&buf).unwrap();
    assert_eq!(arr, vec![0x1234]);
    assert_eq!(consumed, 6);
}

#[test]
fn mod_unpack_u32_array_with_extra_data() {
    let buf = vec![
        0x01, 0x00, 0x00, 0x00, // count = 1
        0x78, 0x56, 0x34, 0x12, // 0x12345678
        0xFF, 0xFF, 0xFF, 0xFF, // extra data
    ];
    let (arr, consumed) = unpack_u32_array(&buf).unwrap();
    assert_eq!(arr, vec![0x12345678]);
    assert_eq!(consumed, 8);
}

#[test]
fn mod_unpack_u16_array_insufficient_bytes_for_count() {
    assert!(unpack_u16_array(&[]).is_err());
    assert!(unpack_u16_array(&[0x00, 0x00, 0x00]).is_err());
}

#[test]
fn mod_unpack_u16_array_insufficient_bytes_for_elements() {
    // Count says 2, but only 1 element provided
    let buf = vec![
        0x02, 0x00, 0x00, 0x00, // count = 2
        0x01, 0x00, // only 1 element
    ];
    assert!(unpack_u16_array(&buf).is_err());
}

#[test]
fn mod_unpack_u32_array_insufficient_bytes_for_count() {
    assert!(unpack_u32_array(&[]).is_err());
    assert!(unpack_u32_array(&[0x00, 0x00, 0x00]).is_err());
}

#[test]
fn mod_unpack_u32_array_insufficient_bytes_for_elements() {
    // Count says 2, but only 1 element provided
    let buf = vec![
        0x02, 0x00, 0x00, 0x00, // count = 2
        0x01, 0x00, 0x00, 0x00, // only 1 element
    ];
    assert!(unpack_u32_array(&buf).is_err());
}

#[test]
fn mod_roundtrip_u16_array() {
    let test_arrays: &[&[u16]] = &[&[], &[0], &[1, 2, 3], &[0xFFFF, 0x1234, 0x0001]];

    for original in test_arrays {
        let (arr, _) = unpack_u16_array(&pack_u16_array(original)).unwrap();
        assert_eq!(&arr[..], *original);
    }
}

#[test]
fn mod_roundtrip_u32_array() {
    let test_arrays: &[&[u32]] =
        &[&[], &[0], &[1, 2, 3], &[0xFFFFFFFF, 0x12345678, 0x00000001]];

    for original in test_arrays {
        let (arr, _) = unpack_u32_array(&pack_u32_array(original)).unwrap();
        assert_eq!(&arr[..], *original);
    }
}

#[test]
fn mod_bytes_consumed_correct() {
    // Test that bytes_consumed is correctly calculated when there's extra data
    let mut buf = pack_string("test");
    buf.extend_from_slice(&[0xFF, 0xFF, 0xFF]); // Extra data

    let (_, consumed) = unpack_string(&buf).unwrap();
    assert_eq!(consumed, buf.len() - 3); // Should not include extra data
}
