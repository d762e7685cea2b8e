use gemm_bi_triad::digest::{no_digest, u32_le, u64_le, FramedSha256};

#[test]
fn a_bare_domain_is_hashed_behind_its_length() {
    let expected = [
        0xb0, 0x12, 0x3c, 0xd8, 0x4c, 0xcd, 0x73, 0xc3, 0x84, 0xec, 0x0c, 0x7e,
        0x2c, 0x41, 0x40, 0xe6, 0x85, 0xbd, 0xc3, 0xf8, 0x19, 0x2b, 0x08, 0x61,
        0xe8, 0x60, 0x8c, 0x8f, 0x7a, 0x76, 0xe2, 0x85,
    ];
    assert_eq!(FramedSha256::new("triad").finish(), expected);
}

#[test]
fn fields_are_hashed_with_their_labels_presence_and_lengths() {
    let expected = [
        0x02, 0x3d, 0x2f, 0x58, 0xdb, 0xf1, 0xbe, 0x8c, 0x4a, 0x9e, 0x3a, 0x0d,
        0xa0, 0xaa, 0xff, 0x27, 0xef, 0xbb, 0x2d, 0x6a, 0x7d, 0xa6, 0x96, 0x78,
        0x6e, 0x76, 0x5b, 0x7a, 0x79, 0x4b, 0xc5, 0x50,
    ];
    assert_eq!(
        FramedSha256::new("triad")
            .required("m", &u64_le(64))
            .optional("bias", None)
            .finish(),
        expected
    );
}

#[test]
fn transcripts_tell_boundaries_order_and_absence_apart() {
    let build = |fields: &[(&str, Option<&[u8]>)]| {
        let mut builder = FramedSha256::new("triad");
        for (label, value) in fields {
            builder = builder.optional(label, *value);
        }
        builder.finish()
    };
    let base = build(&[("ab", Some(b"c")), ("d", Some(b""))]);
    assert_eq!(base, build(&[("ab", Some(b"c")), ("d", Some(b""))]));
    assert_ne!(base, build(&[("a", Some(b"bc")), ("d", Some(b""))]));
    assert_ne!(base, build(&[("d", Some(b"")), ("ab", Some(b"c"))]));
    assert_ne!(base, build(&[("ab", Some(b"c")), ("d", None)]));
    assert_ne!(base, build(&[("ab", Some(b"c"))]));
    assert_ne!(
        FramedSha256::new("triad").finish(),
        FramedSha256::new("triad2").finish()
    );
    assert_ne!(FramedSha256::new("").finish(), no_digest());
}

#[test]
fn integers_are_written_least_significant_byte_first() {
    assert_eq!(u32_le(0x0102_0304), [4, 3, 2, 1]);
    assert_eq!(u64_le(0x0102_0304_0506_0708), [8, 7, 6, 5, 4, 3, 2, 1]);
    assert_eq!(u64_le(u64::MAX), [255; 8]);
    assert_eq!(no_digest(), [0; 32]);
}
