use oath_core::truncation::{checked_truncation, dynamic_truncation, to_be_bytes};

const RFC_DIGEST: [u8; 20] = [
    0x1f, 0x86, 0x98, 0x69, 0x0e, 0x02, 0xca, 0x16, 0x61, 0x85, 0x50, 0xef, 0x7f, 0x19, 0xda, 0x8e,
    0x94, 0x5b, 0x55, 0x5a,
];

#[test]
fn truncation_of_the_rfc_example_digest() {
    assert_eq!(dynamic_truncation(&RFC_DIGEST), 0x50ef7f19);
    assert_eq!(dynamic_truncation(&RFC_DIGEST) % 1_000_000, 872921);
}

#[test]
fn truncation_is_repeatable() {
    let first = dynamic_truncation(&RFC_DIGEST);
    let copy = RFC_DIGEST.to_vec();
    assert_eq!(dynamic_truncation(&copy), first);
    assert_eq!(dynamic_truncation(&RFC_DIGEST), first);
}

#[test]
fn truncation_clears_the_top_bit() {
    let mut digest = [0xffu8; 32];
    for low in 0..16u8 {
        digest[31] = 0xf0 | low;
        assert!(dynamic_truncation(&digest) <= 0x7fff_ffff);
    }
    digest[31] = 0xf0;
    assert_eq!(dynamic_truncation(&digest), 0x7fff_ffff);
    assert_eq!(dynamic_truncation(&[0x80, 0, 0, 0]), 0);
}

#[test]
fn truncation_reads_the_window_at_the_offset() {
    let mut digest = [0u8; 20];
    for (i, byte) in digest.iter_mut().enumerate() {
        *byte = i as u8;
    }
    digest[19] = 0x2f;
    assert_eq!(dynamic_truncation(&digest), 0x0f10_1112);
    digest[19] = 0x23;
    assert_eq!(dynamic_truncation(&digest), 0x0304_0506);
    let mut long = [0u8; 64];
    long[15] = 0xde;
    long[16] = 0xad;
    long[17] = 0xbe;
    long[18] = 0xef;
    long[63] = 0x0f;
    assert_eq!(dynamic_truncation(&long), 0x5ead_beef);
}

#[test]
fn truncation_of_the_shortest_digest() {
    assert_eq!(dynamic_truncation(&[0x12, 0x34, 0x56, 0x70]), 0x1234_5670);
    assert_eq!(checked_truncation(&[0x12, 0x34, 0x56, 0x70]), Some(0x1234_5670));
}

#[test]
fn checked_truncation_refuses_a_window_past_the_end() {
    assert_eq!(checked_truncation(&[]), None);
    assert_eq!(checked_truncation(&[0, 0, 0]), None);
    assert_eq!(checked_truncation(&[0, 0, 0, 0x0f]), None);
    assert_eq!(checked_truncation(&[0, 0, 0, 0x01]), None);
    assert_eq!(checked_truncation(&[9, 0, 0, 0, 0x01]), Some(1));
    let mut eighteen = [0u8; 18];
    eighteen[17] = 0x0f;
    assert_eq!(checked_truncation(&eighteen), None);
    eighteen[17] = 0x0e;
    assert_eq!(checked_truncation(&eighteen), Some(0x0e));
    assert_eq!(checked_truncation(&RFC_DIGEST), Some(0x50ef7f19));
}

#[test]
fn big_endian_encoding() {
    assert_eq!(to_be_bytes(0x4c93cf18), [0x4c, 0x93, 0xcf, 0x18]);
    assert_eq!(to_be_bytes(0), [0, 0, 0, 0]);
    assert_eq!(to_be_bytes(0xffff_ffff), [0xff, 0xff, 0xff, 0xff]);
    assert_eq!(to_be_bytes(1), [0, 0, 0, 1]);
    assert_eq!(to_be_bytes(0x0102_0304), 0x0102_0304u32.to_be_bytes());
}
