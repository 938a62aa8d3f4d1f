use harfbuzz::face::FaceReport;
use harfbuzz::font::Variation;
use harfbuzz::{Blob, Face, Float, Font, Owned};

fn fl(x: f32) -> Float {
    Float::from_bits(x.to_bits())
}

fn face() -> Face<Owned> {
    let blob = Blob::from_vec(vec![1, 2, 3, 4]);
    let report = FaceReport {
        glyph_count: 10,
        units_per_em: 1000,
        has_variation_data: false,
        axis_infos: Vec::new(),
        axis_count: 0,
    };
    Face::from_blob(&blob, report)
}

#[test]
fn variation_parts() {
    let v = Variation::new(*b"wght", fl(700.0));
    assert_eq!(&v.tag(), b"wght");
    assert_eq!(v.tag, 0x7767_6874);
    assert_eq!(f32::from_bits(v.value().to_bits()), 700.0);
    assert_eq!(&Variation::weight(fl(1.0)).tag(), b"wght");
    assert_eq!(&Variation::italic(fl(1.0)).tag(), b"ital");
    assert_eq!(&Variation::size(fl(1.0)).tag(), b"opsz");
    assert_eq!(&Variation::slant(fl(1.0)).tag(), b"slnt");
    assert_eq!(&Variation::width(fl(1.0)).tag(), b"wdth");
    assert_eq!(Variation::width(fl(75.0)).value(), fl(75.0));
}

#[test]
fn new_font_starts_unscaled() {
    let face = face();
    let font = Font::new(&face);
    assert_eq!(font.pixels_per_em(), (0, 0));
    assert_eq!(font.scale(), (1000, 1000));
    assert_eq!(font.point_size().to_bits(), 0);
    assert!(font.variations().is_empty());
    assert!(!font.is_immutable());
    assert_eq!(font.face().glyph_count(), 10);
    let other = face.font();
    assert_eq!(other.scale(), (1000, 1000));
    assert_eq!(other.face().as_bytes(), face.as_bytes());
}

#[test]
fn font_face_is_a_view_of_the_face() {
    let face = face();
    let font = Font::new(&face);
    let view = font.face();
    assert_eq!(view.as_bytes(), &[1, 2, 3, 4]);
    assert_eq!(view.as_bytes().as_ptr(), face.as_bytes().as_ptr());
    assert_eq!(view.index(), 0);
    assert_eq!(view.glyph_count(), 10);
}

#[test]
fn setters_and_getters() {
    let mut font = Font::new(&face());
    font.set_pixels_per_em(12, 14);
    assert_eq!(font.pixels_per_em(), (12, 14));
    font.set_point_size(fl(9.5));
    assert_eq!(f32::from_bits(font.point_size().to_bits()), 9.5);
    assert_eq!(font.pixels_per_em(), (12, 14));
    font.set_scale(-3, 2048);
    assert_eq!(font.scale(), (-3, 2048));
    assert_eq!(font.pixels_per_em(), (12, 14));
    font.set_pixels_per_em(1, 2);
    assert_eq!(font.pixels_per_em(), (1, 2));
    assert_eq!(f32::from_bits(font.point_size().to_bits()), 9.5);
}

#[test]
fn builders_equal_setters() {
    let font = Font::new(&face())
        .with_pixels_per_em(3, 4)
        .with_point_size(fl(11.0))
        .with_scale(5, 6)
        .with_variations(&[Variation::weight(fl(700.0))]);
    let mut other = Font::new(&face());
    other.set_pixels_per_em(3, 4);
    other.set_point_size(fl(11.0));
    other.set_scale(5, 6);
    other.set_variations(&[Variation::weight(fl(700.0))]);
    assert_eq!(font.pixels_per_em(), other.pixels_per_em());
    assert_eq!(font.point_size(), other.point_size());
    assert_eq!(font.scale(), other.scale());
    assert_eq!(font.variations(), other.variations());
    assert_eq!(font.variation(*b"wght"), Some(fl(700.0)));
}

#[test]
fn last_variation_for_a_tag_wins() {
    let mut font = Font::new(&face());
    font.set_variations(&[
        Variation::weight(fl(300.0)),
        Variation::width(fl(80.0)),
        Variation::weight(fl(900.0)),
    ]);
    assert_eq!(font.variation(*b"wght"), Some(fl(900.0)));
    assert_eq!(font.variation(*b"wdth"), Some(fl(80.0)));
    assert_eq!(font.variation(*b"ital"), None);
    assert_eq!(font.variations().len(), 2);
    font.set_variations(&[Variation::new(*b"zzzz", fl(1.0)), Variation::width(fl(120.0))]);
    assert_eq!(font.variation(*b"wght"), Some(fl(900.0)));
    assert_eq!(font.variation(*b"wdth"), Some(fl(120.0)));
    assert_eq!(font.variation(*b"zzzz"), Some(fl(1.0)));
    assert_eq!(font.variations().len(), 3);
    font.set_variations(&[]);
    assert_eq!(font.variations().len(), 3);
}

#[test]
fn subfont_is_isolated_from_parent() {
    let mut parent = Font::new(&face());
    parent.set_pixels_per_em(10, 10);
    parent.set_variations(&[Variation::weight(fl(400.0))]);
    let mut sub = parent.create_subfont();
    assert_eq!(sub.pixels_per_em(), (10, 10));
    assert_eq!(sub.scale(), parent.scale());
    assert_eq!(sub.variation(*b"wght"), Some(fl(400.0)));
    assert!(!sub.is_immutable());
    sub.set_pixels_per_em(20, 24);
    sub.set_variations(&[Variation::weight(fl(700.0))]);
    assert_eq!(sub.pixels_per_em(), (20, 24));
    assert_eq!(parent.pixels_per_em(), (10, 10));
    assert_eq!(parent.variation(*b"wght"), Some(fl(400.0)));
    parent.set_pixels_per_em(5, 6);
    assert_eq!(parent.pixels_per_em(), (5, 6));
    assert_eq!(sub.pixels_per_em(), (20, 24));
    assert_eq!(sub.face().as_bytes().as_ptr(), parent.face().as_bytes().as_ptr());
    assert_eq!(sub.face().glyph_count(), parent.face().glyph_count());
    assert_eq!(sub.face().index(), parent.face().index());
}

#[test]
fn subfont_of_immutable_font_is_mutable() {
    let mut parent = Font::new(&face()).with_scale(7, 8);
    let _other = parent.clone();
    let mut sub = parent.create_subfont();
    assert!(parent.is_immutable());
    assert!(!sub.is_immutable());
    sub.set_scale(1, 2);
    assert_eq!(sub.scale(), (1, 2));
    assert_eq!(parent.scale(), (7, 8));
}

#[test]
fn cloning_a_font_freezes_both_handles() {
    let mut font = Font::new(&face());
    font.set_pixels_per_em(10, 12);
    font.set_point_size(fl(8.0));
    font.set_variations(&[Variation::slant(fl(-5.0))]);
    let mut copy = font.clone();
    assert!(font.is_immutable());
    assert!(copy.is_immutable());
    for f in [&font, &copy] {
        assert_eq!(f.pixels_per_em(), (10, 12));
        assert_eq!(f.point_size(), fl(8.0));
        assert_eq!(f.scale(), (1000, 1000));
        assert_eq!(f.variation(*b"slnt"), Some(fl(-5.0)));
        assert_eq!(f.face().glyph_count(), 10);
        assert_eq!(f.face().as_bytes(), &[1, 2, 3, 4]);
    }
    font.set_pixels_per_em(1, 1);
    font.set_point_size(fl(1.0));
    font.set_scale(1, 1);
    font.set_variations(&[Variation::slant(fl(1.0))]);
    copy.set_scale(2, 2);
    assert_eq!(font.pixels_per_em(), (10, 12));
    assert_eq!(font.point_size(), fl(8.0));
    assert_eq!(font.scale(), (1000, 1000));
    assert_eq!(font.variation(*b"slnt"), Some(fl(-5.0)));
    assert_eq!(copy.scale(), (1000, 1000));
    let built = copy.with_pixels_per_em(3, 3);
    assert_eq!(built.pixels_per_em(), (10, 12));
}
