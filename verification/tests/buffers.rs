use harfbuzz::buffer::{
    ContentType, Glyph, GlyphInfo, GlyphPosition, SegmentProperties,
};
use harfbuzz::face::FaceReport;
use harfbuzz::{shape, Blob, Buffer, Direction, Face, Font, Language, Owned, Script};

fn font() -> Font<Owned> {
    let blob = Blob::from_vec(vec![0, 1, 0, 0]);
    Font::new(&Face::from_blob(&blob, FaceReport::empty()))
}

fn glyph(index: u32, cluster: u32) -> GlyphInfo {
    GlyphInfo { codepoint: index, mask: 0, cluster }
}

fn pos(x_advance: i32) -> GlyphPosition {
    GlyphPosition { x_advance, y_advance: 0, x_offset: 1, y_offset: -1 }
}

fn latin_scripts(text: &str) -> Vec<Script> {
    text.chars()
        .map(|c| if c.is_ascii_alphabetic() { Script::Latin } else { Script::Common })
        .collect()
}

#[test]
fn new_buffer_is_empty_and_invalid() {
    let b = Buffer::new();
    assert!(b.is_empty());
    assert_eq!(b.len(), 0);
    assert_eq!(b.content_type(), ContentType::Invalid);
    assert_eq!(b.get_direction(), Direction::Invalid);
    assert_eq!(b.get_script(), Script::Invalid);
    assert!(!b.get_language().is_valid());
    assert!(b.glyphs().is_none());
    let d = Buffer::default();
    assert!(d.is_empty());
    let c = Buffer::with_capacity(64);
    assert!(c.is_empty());
    assert_eq!(c.content_type(), ContentType::Invalid);
}

#[test]
fn buffer_with_text() {
    let b = Buffer::with("Hello World");
    assert_eq!(b.len(), 11);
    assert_eq!(b.is_empty(), false);
    assert_eq!(b.content_type(), ContentType::Unicode);
    assert_eq!(b.infos()[0], GlyphInfo { codepoint: 'H' as u32, mask: 0, cluster: 0 });
    assert_eq!(b.infos()[10], GlyphInfo { codepoint: 'd' as u32, mask: 0, cluster: 10 });
}

#[test]
fn add_str_appends_and_makes_unicode() {
    let mut b = Buffer::new();
    b.add_str("Hello World");
    assert_eq!(b.is_empty(), false);
    b.add_str("!");
    assert_eq!(b.len(), 12);
    assert_eq!(b.infos()[11], GlyphInfo { codepoint: '!' as u32, mask: 0, cluster: 0 });
    let mut e = Buffer::new();
    e.add_str("");
    assert!(e.is_empty());
    assert_eq!(e.content_type(), ContentType::Unicode);
}

#[test]
fn clusters_are_byte_offsets() {
    let text = "a\u{e9}\u{20ac}\u{1f600}z";
    let b = Buffer::with(text);
    assert_eq!(b.len(), 5);
    let clusters: Vec<u32> = b.infos().iter().map(|i| i.cluster).collect();
    assert_eq!(clusters, vec![0, 1, 3, 6, 10]);
    let expected: Vec<u32> = text.char_indices().map(|(i, _)| i as u32).collect();
    assert_eq!(clusters, expected);
    let codes: Vec<u32> = b.infos().iter().map(|i| i.codepoint).collect();
    assert_eq!(codes, vec![0x61, 0xe9, 0x20ac, 0x1f600, 0x7a]);
    let arabic = Buffer::with("\u{645}\u{633}\u{627}\u{621} \u{627}\u{644}\u{62e}\u{64a}\u{631}");
    assert_eq!(arabic.len(), 10);
    assert_eq!(arabic.infos()[9].cluster, 17);
}

#[test]
fn append_range() {
    let mut b1 = Buffer::with("butter");
    let b2 = Buffer::with("fly");
    b1.append(&b2, 0, 3);
    assert_eq!(b1.len(), "butterfly".len());
    assert_eq!(b1.len(), 9);
    let text: String =
        b1.infos().iter().map(|i| char::from_u32(i.codepoint).unwrap()).collect();
    assert_eq!(text, "butterfly");
    assert_eq!(b2.len(), 3);
}

#[test]
fn append_cuts_the_range_down() {
    let source = Buffer::with("abcdef");
    let mut b = Buffer::with("x");
    b.append(&source, 4, 100);
    assert_eq!(b.len(), 3);
    assert_eq!(b.infos()[1].codepoint, 'e' as u32);
    assert_eq!(b.infos()[1].cluster, 4);
    b.append(&source, 5, 2);
    assert_eq!(b.len(), 3);
    b.append(&source, 9, 100);
    assert_eq!(b.len(), 3);
    b.append(&source, 2, 2);
    assert_eq!(b.len(), 3);
    b.append(&source, 1, 2);
    assert_eq!(b.len(), 4);
    assert_eq!(b.infos()[3].codepoint, 'b' as u32);
}

#[test]
fn append_to_empty_buffer_takes_content_type() {
    let mut shaped = Buffer::with("ab");
    shape(&font(), &mut shaped, vec![glyph(5, 0), glyph(6, 1)], vec![pos(10), pos(20)]);
    let mut b = Buffer::new();
    b.set_direction(Direction::RTL);
    b.append(&shaped, 1, 2);
    assert_eq!(b.content_type(), ContentType::Glyphs);
    assert_eq!(b.get_direction(), Direction::RTL);
    let glyphs = b.glyphs().unwrap();
    assert_eq!(glyphs.infos(), &[glyph(6, 1)]);
    assert_eq!(glyphs.positions(), &[pos(20)]);
    let mut t = Buffer::new();
    t.append(&Buffer::with("q"), 0, 1);
    assert_eq!(t.content_type(), ContentType::Unicode);
    let mut u = Buffer::new();
    u.append(&Buffer::with("q"), 1, 1);
    assert_eq!(u.content_type(), ContentType::Invalid);
}

#[test]
fn append_glyphs_to_glyphs() {
    let mut a = Buffer::with("a");
    shape(&font(), &mut a, vec![glyph(1, 0)], vec![pos(1)]);
    let mut b = Buffer::with("bc");
    shape(&font(), &mut b, vec![glyph(2, 0), glyph(3, 1)], vec![pos(2), pos(3)]);
    a.append(&b, 0, 2);
    let glyphs = a.glyphs().unwrap();
    assert_eq!(glyphs.len(), 3);
    assert_eq!(glyphs.infos(), &[glyph(1, 0), glyph(2, 0), glyph(3, 1)]);
    assert_eq!(glyphs.positions(), &[pos(1), pos(2), pos(3)]);
}

#[test]
fn guess_segment_properties_latin() {
    let text = "Hello, world!";
    let mut b = Buffer::with(text);
    let scripts = latin_scripts(text);
    assert_eq!(b.guess_script(&scripts), Script::Latin);
    let language = Language::from_raw(77);
    b.guess_segment_properties(&scripts, Direction::LTR, language);
    assert_eq!(b.get_direction(), Direction::LTR);
    assert_eq!(b.get_script(), Script::Latin);
    assert_eq!(b.get_language(), language);
    assert_eq!(b.len(), 13);
    assert_eq!(b.content_type(), ContentType::Unicode);
}

#[test]
fn guess_segment_properties_arabic() {
    let text = "\u{645}\u{633}\u{627}\u{621} \u{627}\u{644}\u{62e}\u{64a}\u{631}";
    let mut b = Buffer::with(text);
    let scripts: Vec<Script> =
        text.chars().map(|c| if c == ' ' { Script::Common } else { Script::Arabic }).collect();
    b.guess_segment_properties(&scripts, Direction::RTL, Language::from_raw(1));
    assert_eq!(b.get_direction(), Direction::RTL);
    assert_eq!(b.get_script(), Script::Arabic);
}

#[test]
fn guess_skips_common_inherited_and_unknown() {
    let b = Buffer::with("1234");
    let scripts = [Script::Common, Script::Inherited, Script::Unknown, Script::Greek];
    assert_eq!(b.guess_script(&scripts), Script::Greek);
    let none = [Script::Common, Script::Inherited, Script::Unknown, Script::Common];
    assert_eq!(b.guess_script(&none), Script::Invalid);
    let mut c = Buffer::with("1234");
    c.guess_segment_properties(&none, Direction::LTR, Language::from_raw(3));
    assert_eq!(c.get_script(), Script::Invalid);
    assert_eq!(c.get_direction(), Direction::LTR);
    assert_eq!(c.get_language(), Language::from_raw(3));
}

#[test]
fn guess_never_overwrites_what_is_set() {
    let text = "abc";
    let scripts = latin_scripts(text);
    let mut b = Buffer::with(text);
    b.set_direction(Direction::TTB);
    b.set_script(Script::Cyrillic);
    b.set_language(Language::from_raw(5));
    assert_eq!(b.guess_script(&scripts), Script::Cyrillic);
    b.guess_segment_properties(&scripts, Direction::LTR, Language::from_raw(9));
    assert_eq!(b.get_direction(), Direction::TTB);
    assert_eq!(b.get_script(), Script::Cyrillic);
    assert_eq!(b.get_language(), Language::from_raw(5));
    let mut c = Buffer::with(text);
    c.set_script(Script::Hebrew);
    c.guess_segment_properties(&scripts, Direction::RTL, Language::from_raw(9));
    assert_eq!(c.get_script(), Script::Hebrew);
    assert_eq!(c.get_direction(), Direction::RTL);
    assert_eq!(c.get_language(), Language::from_raw(9));
}

#[test]
fn guess_is_a_no_op_on_an_empty_buffer() {
    let mut b = Buffer::new();
    b.guess_segment_properties(&[], Direction::LTR, Language::from_raw(9));
    assert_eq!(b.get_direction(), Direction::Invalid);
    assert_eq!(b.get_script(), Script::Invalid);
    assert!(!b.get_language().is_valid());
    let mut e = Buffer::with("");
    e.guess_segment_properties(&[], Direction::LTR, Language::from_raw(9));
    assert_eq!(e.get_direction(), Direction::Invalid);
    assert!(!e.get_language().is_valid());
}

#[test]
fn property_accessors() {
    let mut b = Buffer::new();
    b.set_direction(Direction::BTT);
    assert_eq!(b.get_direction(), Direction::BTT);
    assert_eq!(b.get_script(), Script::Invalid);
    b.set_script(Script::Thai);
    assert_eq!(b.get_script(), Script::Thai);
    assert_eq!(b.get_direction(), Direction::BTT);
    b.set_language(Language::from_raw(12));
    assert_eq!(b.get_language().as_raw(), 12);
    assert_eq!(
        b.segment_properties(),
        SegmentProperties::new(Direction::BTT, Script::Thai, Language::from_raw(12))
    );
}

#[test]
fn segment_properties_as_a_unit() {
    let mut props = SegmentProperties::uninit();
    assert_eq!(props.direction(), Direction::Invalid);
    assert_eq!(props.script(), Script::Invalid);
    assert!(!props.language().is_valid());
    props.set_direction(Direction::RTL);
    props.set_script(Script::Arabic);
    props.set_language(Language::from_raw(4));
    assert_eq!(props.direction(), Direction::RTL);
    assert_eq!(props.script(), Script::Arabic);
    assert_eq!(props.language(), Language::from_raw(4));
    let mut b = Buffer::with("x");
    b.set_script(Script::Latin);
    b.set_segment_properties(props);
    assert_eq!(b.segment_properties(), props);
    assert_eq!(b.get_direction(), Direction::RTL);
    assert_eq!(b.get_script(), Script::Arabic);
    assert_eq!(b.len(), 1);
    assert_eq!(b.content_type(), ContentType::Unicode);
}

#[test]
fn glyphs_are_absent_before_shaping() {
    assert!(Buffer::new().glyphs().is_none());
    assert!(Buffer::with("abc").glyphs().is_none());
}

#[test]
fn shape_turns_text_into_glyphs() {
    let mut b = Buffer::with("fi!");
    b.set_direction(Direction::LTR);
    b.set_script(Script::Latin);
    let font = font().with_pixels_per_em(16, 16);
    shape(&font, &mut b, vec![glyph(301, 0), glyph(4, 2)], vec![pos(600), pos(250)]);
    assert_eq!(b.content_type(), ContentType::Glyphs);
    assert_eq!(b.len(), 2);
    assert_eq!(b.get_direction(), Direction::LTR);
    assert_eq!(b.get_script(), Script::Latin);
    assert_eq!(font.pixels_per_em(), (16, 16));
    let glyphs = b.glyphs().unwrap();
    assert_eq!(glyphs.infos().len(), glyphs.positions().len());
    assert_eq!(glyphs.len(), 2);
    assert_eq!(glyphs.infos(), &[glyph(301, 0), glyph(4, 2)]);
    assert_eq!(glyphs.positions()[0].x_advance(), 600);
    assert_eq!(glyphs.positions()[0].y_advance(), 0);
    assert_eq!(glyphs.positions()[0].x_offset(), 1);
    assert_eq!(glyphs.positions()[0].y_offset(), -1);
    assert_eq!(
        glyphs.iter(),
        vec![Glyph { index: 301, position: pos(600) }, Glyph { index: 4, position: pos(250) }]
    );
}

#[test]
fn shape_leaves_other_buffers_alone() {
    let mut invalid = Buffer::new();
    shape(&font(), &mut invalid, vec![glyph(1, 0)], vec![pos(1)]);
    assert_eq!(invalid.content_type(), ContentType::Invalid);
    assert!(invalid.is_empty());
    assert!(invalid.glyphs().is_none());
    let mut shaped = Buffer::with("a");
    shape(&font(), &mut shaped, vec![glyph(1, 0)], vec![pos(1)]);
    shape(&font(), &mut shaped, vec![glyph(2, 0), glyph(3, 0)], vec![pos(2), pos(3)]);
    assert_eq!(shaped.glyphs().unwrap().infos(), &[glyph(1, 0)]);
}

#[test]
fn text_added_to_glyphs_is_ignored() {
    let mut b = Buffer::with("a");
    shape(&font(), &mut b, vec![glyph(1, 0)], vec![pos(1)]);
    b.add_str("more");
    assert_eq!(b.content_type(), ContentType::Glyphs);
    assert_eq!(b.len(), 1);
    b.clear_contents();
    b.add_str("more");
    assert_eq!(b.content_type(), ContentType::Unicode);
    assert_eq!(b.len(), 4);
}

#[test]
fn clear_contents_keeps_properties() {
    let mut b = Buffer::with("text");
    b.set_direction(Direction::RTL);
    b.set_script(Script::Hebrew);
    b.set_language(Language::from_raw(8));
    b.clear_contents();
    assert_eq!(b.content_type(), ContentType::Invalid);
    assert!(b.is_empty());
    assert!(b.glyphs().is_none());
    assert_eq!(b.get_direction(), Direction::RTL);
    assert_eq!(b.get_script(), Script::Hebrew);
    assert_eq!(b.get_language(), Language::from_raw(8));
    let mut g = Buffer::with("a");
    g.set_script(Script::Latin);
    shape(&font(), &mut g, vec![glyph(1, 0)], vec![pos(1)]);
    g.clear_contents();
    assert_eq!(g.content_type(), ContentType::Invalid);
    assert_eq!(g.len(), 0);
    assert_eq!(g.get_script(), Script::Latin);
}

#[test]
fn reset_clears_properties_too() {
    let mut b = Buffer::with("text");
    b.set_direction(Direction::RTL);
    b.set_script(Script::Hebrew);
    b.set_language(Language::from_raw(8));
    b.reset();
    assert_eq!(b.content_type(), ContentType::Invalid);
    assert!(b.is_empty());
    assert_eq!(b.get_direction(), Direction::Invalid);
    assert_eq!(b.get_script(), Script::Invalid);
    assert!(!b.get_language().is_valid());
}

#[test]
fn reserve_changes_nothing() {
    let mut b = Buffer::with("abc");
    b.set_script(Script::Latin);
    b.reserve(1000);
    b.reserve(0);
    b.reserve(usize::MAX);
    assert_eq!(b.len(), 3);
    assert_eq!(b.content_type(), ContentType::Unicode);
    assert_eq!(b.get_script(), Script::Latin);
}
