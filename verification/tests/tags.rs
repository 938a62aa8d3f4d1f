use harfbuzz::{compose_tag, decompose_tag};

#[test]
fn compose_packs_most_significant_byte_first() {
    assert_eq!(compose_tag(*b"wght"), 0x7767_6874);
    assert_eq!(compose_tag([0, 0, 0, 1]), 1);
    assert_eq!(compose_tag([1, 0, 0, 0]), 0x0100_0000);
    assert_eq!(compose_tag([0xff, 0xff, 0xff, 0xff]), u32::MAX);
}

#[test]
fn decompose_unpacks_most_significant_byte_first() {
    assert_eq!(decompose_tag(0x7767_6874), *b"wght");
    assert_eq!(decompose_tag(0), [0, 0, 0, 0]);
    assert_eq!(decompose_tag(u32::MAX), [0xff, 0xff, 0xff, 0xff]);
    assert_eq!(decompose_tag(0x0102_0304), [1, 2, 3, 4]);
}

#[test]
fn tag_round_trip() {
    let tags: [[u8; 4]; 6] = [*b"ital", *b"opsz", *b"slnt", *b"wdth", *b"wght", [0, 255, 128, 7]];
    for tag in tags.iter() {
        assert_eq!(decompose_tag(compose_tag(*tag)), *tag);
    }
    let codes: [u32; 5] = [0, 1, 0x4172_6162, 0x8000_0000, u32::MAX];
    for code in codes.iter() {
        assert_eq!(compose_tag(decompose_tag(*code)), *code);
    }
}
