use harfbuzz::buffer::ContentType;
use harfbuzz::{compose_tag, Direction, Language, Script};

#[test]
fn script_codes_are_packed_iso_tags() {
    assert_eq!(Script::Arabic.as_raw(), compose_tag(*b"Arab"));
    assert_eq!(Script::Latin.as_raw(), compose_tag(*b"Latn"));
    assert_eq!(Script::Common.as_raw(), compose_tag(*b"Zyyy"));
    assert_eq!(Script::Inherited.as_raw(), compose_tag(*b"Zinh"));
    assert_eq!(Script::Unknown.as_raw(), compose_tag(*b"Zzzz"));
    assert_eq!(Script::Wancho.as_raw(), compose_tag(*b"Wcho"));
    assert_eq!(Script::NyiakengPuachueHmong.as_raw(), compose_tag(*b"Hmnp"));
    assert_eq!(Script::Latin.as_raw(), 0x4c61_746e);
    assert_eq!(Script::Invalid.as_raw(), 0);
}

#[test]
fn script_from_raw() {
    assert_eq!(Script::from_raw(compose_tag(*b"Hebr")), Script::Hebrew);
    assert_eq!(Script::from_raw(compose_tag(*b"Hani")), Script::Han);
    assert_eq!(Script::from_raw(0), Script::Invalid);
    assert_eq!(Script::try_from_raw(compose_tag(*b"Grek")), Some(Script::Greek));
}

#[test]
fn unrecognised_script_code() {
    assert_eq!(Script::try_from_raw(1), None);
    assert_eq!(Script::try_from_raw(compose_tag(*b"Chrs")), None);
    assert_eq!(Script::try_from_raw(compose_tag(*b"latn")), None);
    assert_eq!(Script::try_from_raw(u32::MAX), None);
}

#[test]
fn script_round_trip() {
    let scripts = [
        Script::Common,
        Script::Inherited,
        Script::Unknown,
        Script::Arabic,
        Script::Latin,
        Script::Tibetan,
        Script::OldHungarian,
        Script::Adlam,
        Script::ZanabazarSquare,
        Script::Wancho,
        Script::Invalid,
    ];
    for s in scripts.iter() {
        assert_eq!(Script::from_raw(s.as_raw()), *s);
        assert_eq!(Script::try_from_raw(s.as_raw()), Some(*s));
    }
    for (i, a) in scripts.iter().enumerate() {
        for (j, b) in scripts.iter().enumerate() {
            assert_eq!(a.as_raw() == b.as_raw(), i == j);
        }
    }
}

#[test]
fn direction_codes() {
    assert_eq!(Direction::Invalid.as_raw(), 0);
    assert_eq!(Direction::LTR.as_raw(), 4);
    assert_eq!(Direction::RTL.as_raw(), 5);
    assert_eq!(Direction::TTB.as_raw(), 6);
    assert_eq!(Direction::BTT.as_raw(), 7);
    for d in [Direction::Invalid, Direction::LTR, Direction::RTL, Direction::TTB, Direction::BTT] {
        assert_eq!(Direction::from_raw(d.as_raw()), d);
    }
    for raw in [1u32, 2, 3, 8, 100, u32::MAX] {
        assert_eq!(Direction::from_raw(raw), Direction::Invalid);
    }
}

#[test]
fn content_type_codes() {
    assert_eq!(ContentType::Invalid.into_raw(), 0);
    assert_eq!(ContentType::Unicode.into_raw(), 1);
    assert_eq!(ContentType::Glyphs.into_raw(), 2);
    assert_eq!(ContentType::from_raw(0), ContentType::Invalid);
    assert_eq!(ContentType::from_raw(1), ContentType::Unicode);
    assert_eq!(ContentType::from_raw(2), ContentType::Glyphs);
    assert_eq!(ContentType::try_from_raw(2), Some(ContentType::Glyphs));
    assert_eq!(ContentType::try_from_raw(3), None);
    assert_eq!(ContentType::try_from_raw(u32::MAX), None);
}

#[test]
fn language_tokens() {
    assert!(!Language::invalid().is_valid());
    assert_eq!(Language::invalid().as_raw(), 0);
    let l = Language::from_raw(0x1000);
    assert!(l.is_valid());
    assert_eq!(l.as_raw(), 0x1000);
    assert_eq!(Language::from_raw(0), Language::invalid());
}
