//! The `Font` type and associated types and functions.
//!
//! A `Font` is a font face along with its instance settings: sizes, scales
//! and variations. It is what text is shaped with.

use crate::face::{Face, ITALIC_TAG, OPTICAL_SIZE_TAG, SLANT_TAG, WEIGHT_TAG, WIDTH_TAG};
use crate::float::Float;
use crate::ownership::{Borrowed, Ownership};
use crate::tag::{compose_tag, decompose_tag, tag_bytes, tag_value};
use vstd::prelude::*;

verus! {

/// A variation: an instruction to set one axis of a font to a value.
#[derive(Debug, Copy, Clone, PartialEq, Eq, Structural)]
pub struct Variation {
    /// The four-byte tag of the axis, packed.
    pub tag: u32,
    /// The value to set the axis to.
    pub value: Float,
}

impl Variation {
    /// Create a new variation from its constituent parts.
    pub fn new(tag: [u8; 4], value: Float) -> (variation: Self)
        ensures
            variation.tag == tag_value(tag@),
            tag_bytes(variation.tag) == tag@,
            variation.value == value,
    {
        Variation { tag: compose_tag(tag), value }
    }

    /// Create a standard weight variation with the given value.
    ///
    /// A value of 400 is usually 'normal'.
    pub fn weight(value: Float) -> (variation: Self)
        ensures
            tag_bytes(variation.tag) == WEIGHT_TAG@,
            variation.value == value,
    {
        Self::new(WEIGHT_TAG, value)
    }

    /// Create a standard italic variation with the given value.
    pub fn italic(value: Float) -> (variation: Self)
        ensures
            tag_bytes(variation.tag) == ITALIC_TAG@,
            variation.value == value,
    {
        Self::new(ITALIC_TAG, value)
    }

    /// Create a standard optical size variation with the given value.
    pub fn size(value: Float) -> (variation: Self)
        ensures
            tag_bytes(variation.tag) == OPTICAL_SIZE_TAG@,
            variation.value == value,
    {
        Self::new(OPTICAL_SIZE_TAG, value)
    }

    /// Create a standard slant variation with the given value.
    pub fn slant(value: Float) -> (variation: Self)
        ensures
            tag_bytes(variation.tag) == SLANT_TAG@,
            variation.value == value,
    {
        Self::new(SLANT_TAG, value)
    }

    /// Create a standard width variation with the given value.
    ///
    /// A value of 100 is usually 'normal'.
    pub fn width(value: Float) -> (variation: Self)
        ensures
            tag_bytes(variation.tag) == WIDTH_TAG@,
            variation.value == value,
    {
        Self::new(WIDTH_TAG, value)
    }

    /// Get the name of the variation axis this variation corresponds to.
    pub fn tag(&self) -> (tag: [u8; 4])
        ensures
            tag@ == tag_bytes(self.tag),
    {
        decompose_tag(self.tag)
    }

    /// Get the value to set the variation axis to.
    pub fn value(&self) -> (value: Float)
        ensures
            value == self.value,
    {
        self.value
    }
}

/// The instance settings of a font, as mathematics.
pub ghost struct FontState {
    /// Pixels per em, horizontally.
    pub x_ppem: u32,
    /// Pixels per em, vertically.
    pub y_ppem: u32,
    /// The point size; zero bits mean that it is unset.
    pub point_size: Float,
    /// The horizontal scale.
    pub x_scale: i32,
    /// The vertical scale.
    pub y_scale: i32,
    /// The value that each variation axis was set to, by packed tag.
    pub variations: Map<u32, Float>,
}

/// The axis values after a list of variations has been applied in order to
/// the values `before`: a later variation overwrites an earlier one for the
/// same axis.
pub open spec fn apply_variations(before: Map<u32, Float>, list: Seq<Variation>) -> Map<
    u32,
    Float,
>
    decreases list.len(),
{
    if list.len() == 0 {
        before
    } else {
        apply_variations(before, list.drop_last()).insert(list.last().tag, list.last().value)
    }
}

/// Whether no two variations of a list are for the same axis.
pub open spec fn distinct_axes(list: Seq<Variation>) -> bool {
    forall|i: int, j: int| 0 <= i < j < list.len() ==> list[i].tag != list[j].tag
}

/// Whether a list has a variation for the given axis.
pub open spec fn has_axis(list: Seq<Variation>, tag: u32) -> bool {
    exists|i: int| 0 <= i < list.len() && #[trigger] list[i].tag == tag
}

/// Applying a list that was extended by one variation is applying the list
/// and then the one variation.
pub proof fn lemma_apply_push(before: Map<u32, Float>, list: Seq<Variation>, v: Variation)
    ensures
        apply_variations(before, list.push(v)) == apply_variations(before, list).insert(
            v.tag,
            v.value,
        ),
{
    assert(list.push(v).drop_last() =~= list);
}

/// The axes that have a value after a list was applied to no values are the
/// axes that the list has a variation for.
proof fn lemma_apply_domain(list: Seq<Variation>, tag: u32)
    ensures
        apply_variations(Map::empty(), list).contains_key(tag) <==> has_axis(list, tag),
    decreases list.len(),
{
    if list.len() > 0 {
        lemma_apply_domain(list.drop_last(), tag);
        if has_axis(list.drop_last(), tag) {
            let i = choose|i: int| 0 <= i < list.drop_last().len() && list.drop_last()[i].tag == tag;
            assert(list[i].tag == tag);
        }
        if has_axis(list, tag) {
            let i = choose|i: int| 0 <= i < list.len() && list[i].tag == tag;
            if i < list.len() - 1 {
                assert(list.drop_last()[i].tag == tag);
            }
        }
        assert(list[list.len() - 1] == list.last());
    }
}

/// In a list with distinct axes, each variation's value is the value of its
/// axis after the list was applied.
proof fn lemma_apply_value(list: Seq<Variation>, k: int)
    requires
        distinct_axes(list),
        0 <= k < list.len(),
    ensures
        apply_variations(Map::empty(), list).contains_key(list[k].tag),
        apply_variations(Map::empty(), list)[list[k].tag] == list[k].value,
    decreases list.len(),
{
    if k < list.len() - 1 {
        assert(list.drop_last()[k] == list[k]);
        lemma_apply_value(list.drop_last(), k);
    }
}

/// In a list with distinct axes, replacing a variation by another for the
/// same axis has the effect of applying the new variation last.
proof fn lemma_apply_update(list: Seq<Variation>, k: int, v: Variation)
    requires
        distinct_axes(list),
        0 <= k < list.len(),
        list[k].tag == v.tag,
    ensures
        distinct_axes(list.update(k, v)),
        apply_variations(Map::empty(), list.update(k, v)) == apply_variations(
            Map::empty(),
            list,
        ).insert(v.tag, v.value),
    decreases list.len(),
{
    let changed = list.update(k, v);
    if k == list.len() - 1 {
        assert(changed.drop_last() =~= list.drop_last());
        assert(apply_variations(Map::empty(), changed) =~= apply_variations(
            Map::empty(),
            list,
        ).insert(v.tag, v.value));
    } else {
        assert(list.drop_last()[k] == list[k]);
        lemma_apply_update(list.drop_last(), k, v);
        assert(changed.drop_last() =~= list.drop_last().update(k, v));
        assert(changed.last() == list.last());
        assert(list.last().tag != v.tag);
        assert(apply_variations(Map::empty(), changed) =~= apply_variations(
            Map::empty(),
            list,
        ).insert(v.tag, v.value));
    }
}

/// Applying one list and then another is applying the two in a row.
pub proof fn lemma_apply_concat(before: Map<u32, Float>, first: Seq<Variation>, second: Seq<Variation>)
    ensures
        apply_variations(apply_variations(before, first), second) == apply_variations(
            before,
            first + second,
        ),
    decreases second.len(),
{
    if second.len() == 0 {
        assert(first + second =~= first);
    } else {
        lemma_apply_concat(before, first, second.drop_last());
        assert((first + second).drop_last() =~= first + second.drop_last());
        assert((first + second).last() == second.last());
    }
}

/// In one list, the last variation for an axis decides the value of the
/// axis, whatever came before.
pub proof fn lemma_last_variation_wins(before: Map<u32, Float>, list: Seq<Variation>, k: int)
    requires
        0 <= k < list.len(),
        forall|j: int| k < j < list.len() ==> list[j].tag != list[k].tag,
    ensures
        apply_variations(before, list).contains_key(list[k].tag),
        apply_variations(before, list)[list[k].tag] == list[k].value,
    decreases list.len(),
{
    if k < list.len() - 1 {
        assert(list.drop_last()[k] == list[k]);
        assert forall|j: int| k < j < list.drop_last().len() implies list.drop_last()[j].tag
            != list.drop_last()[k].tag by {
            assert(list.drop_last()[j] == list[j]);
        }
        lemma_last_variation_wins(before, list.drop_last(), k);
    }
}

/// Wrapper around the settings of one instance of a face.
///
/// Fonts are much more lightweight than `Face`s. A font made immutable (by
/// `clone`) keeps its settings for good: its setters then do nothing.
pub struct Font<T: Ownership> {
    face: Face<T>,
    immutable: bool,
    x_ppem: u32,
    y_ppem: u32,
    ptem: Float,
    x_scale: i32,
    y_scale: i32,
    variations: Vec<Variation>,
}

impl<T: Ownership> Font<T> {
    #[verifier::type_invariant]
    spec fn well_formed(self) -> bool {
        distinct_axes(self.variations@)
    }

    /// The face that the font is an instance of.
    pub closed spec fn face_spec(&self) -> Face<T> {
        self.face
    }

    /// Whether the font has been made immutable.
    pub closed spec fn immutable(&self) -> bool {
        self.immutable
    }

    /// The instance settings of the font.
    pub closed spec fn state(&self) -> FontState {
        FontState {
            x_ppem: self.x_ppem,
            y_ppem: self.y_ppem,
            point_size: self.ptem,
            x_scale: self.x_scale,
            y_scale: self.y_scale,
            variations: apply_variations(Map::empty(), self.variations@),
        }
    }

    /// Whether the font is as `Font::new` makes it: mutable, no size set,
    /// the scale at the face's units per em, no axis moved.
    pub open spec fn initial(&self) -> bool {
        &&& !self.immutable()
        &&& self.state() == (FontState {
            x_ppem: 0,
            y_ppem: 0,
            point_size: Float { bits: 0 },
            x_scale: self.face_spec().report().units_per_em as i32,
            y_scale: self.face_spec().report().units_per_em as i32,
            variations: Map::empty(),
        })
    }

    /// Whether `self` is the font `before` but for its settings: the same
    /// face, and immutable if and only if `before` is.
    pub open spec fn same_font(&self, before: &Self) -> bool {
        &&& self.face_spec() == before.face_spec()
        &&& self.immutable() == before.immutable()
    }

    /// Creates a font from a face.
    pub fn new(face: &Face<T>) -> (font: Font<T>)
        ensures
            font.face_spec().same_program(face),
            font.face_spec().immutable() == face.immutable(),
            font.initial(),
    {
        let upem: u32 = face.units_per_em();
        let scale: i32 = #[verifier::truncate]
        (upem as i32);
        Font {
            face: face.share(),
            immutable: false,
            x_ppem: 0,
            y_ppem: 0,
            ptem: Float::zero(),
            x_scale: scale,
            y_scale: scale,
            variations: Vec::new(),
        }
    }

    /// A read-only view of the face of this font, for as long as the font
    /// is borrowed.
    pub fn face<'a>(&'a self) -> (face: Face<Borrowed<'a>>)
        ensures
            face.data() == self.face_spec().data(),
            face.index_spec() == self.face_spec().index_spec(),
            face.report() == self.face_spec().report(),
            face.immutable() == self.face_spec().immutable(),
    {
        self.face.view()
    }

    /// Returns true if the font is immutable.
    pub fn is_immutable(&self) -> (immutable: bool)
        ensures
            immutable == self.immutable(),
    {
        self.immutable
    }

    /// Gets the width and height in pixels of the letter `m` with the
    /// current size.
    pub fn pixels_per_em(&self) -> (ppem: (u32, u32))
        ensures
            ppem == (self.state().x_ppem, self.state().y_ppem),
    {
        (self.x_ppem, self.y_ppem)
    }

    /// Sets the size of the font, by specifying the width and height in
    /// pixels of the letter `m`. An immutable font is left as it is.
    pub fn set_pixels_per_em(&mut self, x_ppem: u32, y_ppem: u32)
        ensures
            final(self).same_font(old(self)),
            final(self).state() == if old(self).immutable() {
                old(self).state()
            } else {
                FontState { x_ppem, y_ppem, ..old(self).state() }
            },
    {
        proof {
            use_type_invariant(&*self);
        }
        if !self.immutable {
            self.x_ppem = x_ppem;
            self.y_ppem = y_ppem;
        }
    }

    /// The font with its size in pixels per em set. See `set_pixels_per_em`.
    pub fn with_pixels_per_em(self, x_ppem: u32, y_ppem: u32) -> (font: Self)
        ensures
            font.same_font(&self),
            font.state() == if self.immutable() {
                self.state()
            } else {
                FontState { x_ppem, y_ppem, ..self.state() }
            },
    {
        let mut font = self;
        font.set_pixels_per_em(x_ppem, y_ppem);
        font
    }

    /// Gets the number of 'points' in the width of 'm'. There are 72 points
    /// in an inch.
    pub fn point_size(&self) -> (points: Float)
        ensures
            points == self.state().point_size,
    {
        self.ptem
    }

    /// Sets the size of the font, by specifying the size in 'points' of the
    /// width of 'm'. The size in pixels is not touched. An immutable font is
    /// left as it is.
    pub fn set_point_size(&mut self, points: Float)
        ensures
            final(self).same_font(old(self)),
            final(self).state() == if old(self).immutable() {
                old(self).state()
            } else {
                FontState { point_size: points, ..old(self).state() }
            },
    {
        proof {
            use_type_invariant(&*self);
        }
        if !self.immutable {
            self.ptem = points;
        }
    }

    /// The font with its point size set. See `set_point_size`.
    pub fn with_point_size(self, points: Float) -> (font: Self)
        ensures
            font.same_font(&self),
            font.state() == if self.immutable() {
                self.state()
            } else {
                FontState { point_size: points, ..self.state() }
            },
    {
        let mut font = self;
        font.set_point_size(points);
        font
    }

    /// Gets the subpixel scales in x and y directions.
    pub fn scale(&self) -> (scale: (i32, i32))
        ensures
            scale == (self.state().x_scale, self.state().y_scale),
    {
        (self.x_scale, self.y_scale)
    }

    /// Sets the subpixel scales in x and y directions. An immutable font is
    /// left as it is.
    pub fn set_scale(&mut self, x_scale: i32, y_scale: i32)
        ensures
            final(self).same_font(old(self)),
            final(self).state() == if old(self).immutable() {
                old(self).state()
            } else {
                FontState { x_scale, y_scale, ..old(self).state() }
            },
    {
        proof {
            use_type_invariant(&*self);
        }
        if !self.immutable {
            self.x_scale = x_scale;
            self.y_scale = y_scale;
        }
    }

    /// The font with its scales set. See `set_scale`.
    pub fn with_scale(self, x_scale: i32, y_scale: i32) -> (font: Self)
        ensures
            font.same_font(&self),
            font.state() == if self.immutable() {
                self.state()
            } else {
                FontState { x_scale, y_scale, ..self.state() }
            },
    {
        let mut font = self;
        font.set_scale(x_scale, y_scale);
        font
    }

    /// Sets variations for this font, in the order of the list.
    ///
    /// A variation overwrites what its axis was set to before, by an earlier
    /// call or earlier in the list. Axes that the face does not have are
    /// recorded like the others. An immutable font is left as it is.
    pub fn set_variations(&mut self, variations: &[Variation])
        ensures
            final(self).same_font(old(self)),
            final(self).state() == if old(self).immutable() {
                old(self).state()
            } else {
                FontState {
                    variations: apply_variations(old(self).state().variations, variations@),
                    ..old(self).state()
                }
            },
    {
        if self.immutable {
            return ;
        }
        proof {
            use_type_invariant(&*self);
        }
        let ghost before = self.variations@;
        let mut list: Vec<Variation> = copy_variations(&self.variations);
        let n: usize = variations.len();
        let mut i: usize = 0;
        while i < n
            invariant
                i <= n == variations@.len(),
                distinct_axes(list@),
                apply_variations(Map::empty(), list@) == apply_variations(
                    apply_variations(Map::empty(), before),
                    variations@.take(i as int),
                ),
            decreases n - i,
        {
            set_variation(&mut list, variations[i]);
            proof {
                assert(variations@.take(i + 1).drop_last() =~= variations@.take(i as int));
            }
            i += 1;
        }
        proof {
            assert(variations@.take(n as int) =~= variations@);
        }
        self.variations = list;
    }

    /// The font with variations set. See `set_variations`.
    pub fn with_variations(self, variations: &[Variation]) -> (font: Self)
        ensures
            font.same_font(&self),
            font.state() == if self.immutable() {
                self.state()
            } else {
                FontState {
                    variations: apply_variations(self.state().variations, variations@),
                    ..self.state()
                }
            },
    {
        let mut font = self;
        font.set_variations(variations);
        font
    }

    /// The value that an axis was set to, if it was set.
    pub fn variation(&self, tag: [u8; 4]) -> (value: Option<Float>)
        ensures
            value == if self.state().variations.contains_key(tag_value(tag@) as u32) {
                Some(self.state().variations[tag_value(tag@) as u32])
            } else {
                None
            },
    {
        proof {
            use_type_invariant(self);
        }
        let code: u32 = compose_tag(tag);
        let n: usize = self.variations.len();
        let mut i: usize = 0;
        while i < n
            invariant
                i <= n == self.variations@.len(),
                distinct_axes(self.variations@),
                code == tag_value(tag@),
                forall|j: int| 0 <= j < i ==> self.variations@[j].tag != code,
            decreases n - i,
        {
            if self.variations[i].tag == code {
                proof {
                    lemma_apply_value(self.variations@, i as int);
                }
                return Some(self.variations[i].value);
            }
            i += 1;
        }
        proof {
            lemma_apply_domain(self.variations@, code);
        }
        None
    }

    /// The settings of the variation axes, one variation for each axis that
    /// was set. Applying them to a font with no axis set gives the axis
    /// values of this font.
    pub fn variations(&self) -> (list: &[Variation])
        ensures
            distinct_axes(list@),
            apply_variations(Map::empty(), list@) == self.state().variations,
    {
        proof {
            use_type_invariant(self);
        }
        self.variations.as_slice()
    }

    /// Create another font with the same face and the same settings as
    /// `self`. The new font is mutable, and the two fonts can then be changed
    /// without affecting each other.
    pub fn create_subfont(&self) -> (sub: Self)
        ensures
            sub.face_spec().same_program(&self.face_spec()),
            sub.face_spec().immutable() == self.face_spec().immutable(),
            sub.state() == self.state(),
            !sub.immutable(),
    {
        proof {
            use_type_invariant(self);
        }
        Font {
            face: self.face.share(),
            immutable: false,
            x_ppem: self.x_ppem,
            y_ppem: self.y_ppem,
            ptem: self.ptem,
            x_scale: self.x_scale,
            y_scale: self.y_scale,
            variations: copy_variations(&self.variations),
        }
    }

    /// A second handle on the same font. The font is made immutable first:
    /// both handles keep the face and the settings that the font had, and
    /// the setters of both do nothing from now on.
    pub fn clone(&mut self) -> (other: Self)
        ensures
            final(self).face_spec() == old(self).face_spec(),
            final(self).state() == old(self).state(),
            final(self).immutable(),
            other.face_spec().same_program(&old(self).face_spec()),
            other.face_spec().immutable() == old(self).face_spec().immutable(),
            other.state() == old(self).state(),
            other.immutable(),
    {
        proof {
            use_type_invariant(&*self);
        }
        self.immutable = true;
        Font {
            face: self.face.share(),
            immutable: true,
            x_ppem: self.x_ppem,
            y_ppem: self.y_ppem,
            ptem: self.ptem,
            x_scale: self.x_scale,
            y_scale: self.y_scale,
            variations: copy_variations(&self.variations),
        }
    }
}

/// Sets one axis in a list of variations that has one entry for each axis:
/// the entry of the axis is overwritten, or a new one is added.
fn set_variation(list: &mut Vec<Variation>, variation: Variation)
    requires
        distinct_axes(old(list)@),
    ensures
        distinct_axes(final(list)@),
        apply_variations(Map::empty(), final(list)@) == apply_variations(
            Map::empty(),
            old(list)@,
        ).insert(variation.tag, variation.value),
{
    let ghost before = list@;
    let n: usize = list.len();
    let mut i: usize = 0;
    while i < n
        invariant
            i <= n == list@.len(),
            list@ == before,
            before == old(list)@,
            distinct_axes(before),
            forall|j: int| 0 <= j < i ==> before[j].tag != variation.tag,
        decreases n - i,
    {
        if list[i].tag == variation.tag {
            proof {
                lemma_apply_update(before, i as int, variation);
            }
            list[i] = variation;
            assert(list@ =~= before.update(i as int, variation));
            return ;
        }
        i += 1;
    }
    proof {
        lemma_apply_push(Map::empty(), before, variation);
    }
    list.push(variation);
}

/// A copy of a list of variations.
fn copy_variations(list: &Vec<Variation>) -> (copy: Vec<Variation>)
    ensures
        copy@ == list@,
{
    let mut copy: Vec<Variation> = Vec::new();
    let n: usize = list.len();
    let mut i: usize = 0;
    while i < n
        invariant
            i <= n == list@.len(),
            copy@ == list@.take(i as int),
        decreases n - i,
    {
        copy.push(list[i]);
        proof {
            assert(list@.take(i + 1) =~= list@.take(i as int).push(list@[i as int]));
        }
        i += 1;
    }
    proof {
        assert(list@.take(n as int) =~= list@);
    }
    copy
}

} // verus!
