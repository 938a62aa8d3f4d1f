//! The `Face` type and associated types and functions.
//!
//! A `Face` is one font program out of a blob (a font file may hold several).
//! The library keeps the bytes alive and answers queries from what the
//! shaping engine reported when it parsed them.

use crate::blob::Blob;
use crate::float::Float;
use crate::font::Font;
use crate::ownership::{arc_share, Borrowed, Owned, Ownership};
use crate::sealed::Sealed;
use crate::tag::{decompose_tag, tag_bytes};
use std::sync::Arc;
use vstd::prelude::*;

verus! {

/// The standard tag for the italic axis, `ital`.
pub const ITALIC_TAG: [u8; 4] = [0x69, 0x74, 0x61, 0x6c];

/// The standard tag for the optical size axis, `opsz`.
pub const OPTICAL_SIZE_TAG: [u8; 4] = [0x6f, 0x70, 0x73, 0x7a];

/// The standard tag for the slant axis, `slnt`.
pub const SLANT_TAG: [u8; 4] = [0x73, 0x6c, 0x6e, 0x74];

/// The standard tag for the width axis, `wdth`.
pub const WIDTH_TAG: [u8; 4] = [0x77, 0x64, 0x74, 0x68];

/// The standard tag for the weight axis, `wght`.
pub const WEIGHT_TAG: [u8; 4] = [0x77, 0x67, 0x68, 0x74];

/// The name identifier that stands for "no name".
pub const NAME_ID_INVALID: u32 = 0xffff;

/// Information on one axis of variation of a font: weight, width, slant and
/// the like.
#[derive(Debug, Copy, Clone, PartialEq, Eq, Structural)]
pub struct AxisInfo {
    /// The index of the axis in the font.
    pub axis_index: u32,
    /// The four-byte tag of the axis, packed.
    pub tag: u32,
    /// The identifier of the axis' name in the font's name table.
    pub name_id: u32,
    /// The flags of the axis.
    pub flags: u32,
    /// The smallest value that the font can use on the axis.
    pub min_value: Float,
    /// The value that the axis has when a font is created.
    pub default_value: Float,
    /// The largest value that the font can use on the axis.
    pub max_value: Float,
}

impl AxisInfo {
    /// Get the index of the axis in the font.
    ///
    /// This is used when setting the variations for a font.
    pub fn axis_index(&self) -> (index: u32)
        ensures
            index == self.axis_index,
    {
        self.axis_index
    }

    /// Get the tag (a 4 byte identifier) for the variation axis.
    pub fn tag(&self) -> (tag: [u8; 4])
        ensures
            tag@ == tag_bytes(self.tag),
    {
        decompose_tag(self.tag)
    }

    /// The smallest value for the axis that the font can use.
    pub fn min_value(&self) -> (value: Float)
        ensures
            value == self.min_value,
    {
        self.min_value
    }

    /// The value that this axis will be set to when a font is created.
    pub fn default_value(&self) -> (value: Float)
        ensures
            value == self.default_value,
    {
        self.default_value
    }

    /// The largest value for the axis that the font can use.
    pub fn max_value(&self) -> (value: Float)
        ensures
            value == self.max_value,
    {
        self.max_value
    }
}

impl Default for AxisInfo {
    /// The blank record that an axis array is filled with before the engine
    /// writes into it.
    fn default() -> (info: Self)
        ensures
            info == (AxisInfo {
                axis_index: 0,
                tag: 0,
                name_id: NAME_ID_INVALID,
                flags: 0,
                min_value: Float { bits: 0 },
                default_value: Float { bits: 0 },
                max_value: Float { bits: 0 },
            }),
    {
        AxisInfo {
            axis_index: 0,
            tag: 0,
            name_id: NAME_ID_INVALID,
            flags: 0,
            min_value: Float::zero(),
            default_value: Float::zero(),
            max_value: Float::zero(),
        }
    }
}

/// What the shaping engine reports of one font program: the facts that a
/// `Face` answers its queries from.
pub struct FaceReport {
    /// The number of glyphs. Zero for a font that the engine could not find
    /// or parse (a font index out of range, for one).
    pub glyph_count: u32,
    /// The units per em, the scale that a new font starts with.
    pub units_per_em: u32,
    /// Whether the font program carries variation data.
    pub has_variation_data: bool,
    /// The axis array: as long as the engine's axis count said, and then
    /// filled by the engine.
    pub axis_infos: Vec<AxisInfo>,
    /// How many entries of `axis_infos` the engine filled in.
    pub axis_count: u32,
}

impl FaceReport {
    /// The report of the empty font program: no glyphs, no variation data.
    pub fn empty() -> (report: Self)
        ensures
            report.glyph_count == 0,
            report.units_per_em == 1000,
            !report.has_variation_data,
            report.axis_infos@.len() == 0,
            report.axis_count == 0,
    {
        FaceReport {
            glyph_count: 0,
            units_per_em: 1000,
            has_variation_data: false,
            axis_infos: Vec::new(),
            axis_count: 0,
        }
    }

    /// A blank axis array of the given length, for the engine to fill.
    pub fn blank_axes(count: u32) -> (axes: Vec<AxisInfo>)
        ensures
            axes@.len() == count,
            forall|i: int| 0 <= i < count ==> axes@[i] == AxisInfo::default_spec(),
    {
        let mut axes: Vec<AxisInfo> = Vec::new();
        let mut i: u32 = 0;
        while i < count
            invariant
                i <= count,
                axes@.len() == i,
                forall|j: int| 0 <= j < i ==> axes@[j] == AxisInfo::default_spec(),
            decreases count - i,
        {
            axes.push(AxisInfo::default());
            i += 1;
        }
        axes
    }

    /// The axes of variation that the report holds: none without variation
    /// data, else the entries that the engine filled in, in order.
    pub open spec fn axes(&self) -> Option<Seq<AxisInfo>> {
        if !self.has_variation_data {
            None
        } else if self.axis_count < self.axis_infos@.len() {
            Some(self.axis_infos@.take(self.axis_count as int))
        } else {
            Some(self.axis_infos@)
        }
    }
}

impl AxisInfo {
    /// The blank record.
    pub open spec fn default_spec() -> AxisInfo {
        AxisInfo {
            axis_index: 0,
            tag: 0,
            name_id: NAME_ID_INVALID,
            flags: 0,
            min_value: Float { bits: 0 },
            default_value: Float { bits: 0 },
            max_value: Float { bits: 0 },
        }
    }
}

/// A font face: one font program, selected by its index within a blob.
///
/// Faces are heavyweight: they keep all the bytes of the font alive. The face
/// is one more holder of the blob's bytes, so the blob may be dropped while
/// the face lives.
pub struct Face<T> {
    source: T,
    index: u32,
    report: Arc<FaceReport>,
    immutable: bool,
}

impl Face<Owned> {
    /// Creates the empty font face: no bytes, no glyphs.
    pub fn new() -> (face: Self)
        ensures
            face.data().len() == 0,
            face.index_spec() == 0,
            face.report().glyph_count == 0,
            face.report().units_per_em == 1000,
            face.report().axes() is None,
            face.immutable(),
    {
        Face {
            source: Owned::from_arc(Arc::new(Vec::new())),
            index: 0,
            report: Arc::new(FaceReport::empty()),
            immutable: true,
        }
    }
}

impl<T: Ownership> Face<T> {
    /// The bytes of the blob that the face was made from.
    pub closed spec fn data(&self) -> Seq<u8> {
        self.source.bytes()
    }

    /// The index of the font program within the blob.
    pub closed spec fn index_spec(&self) -> u32 {
        self.index
    }

    /// What the engine reported of the font program.
    pub closed spec fn report(&self) -> FaceReport {
        *self.report
    }

    /// Whether the face has been made immutable.
    pub closed spec fn immutable(&self) -> bool {
        self.immutable
    }

    /// Whether two faces are the same font program: the same bytes, index
    /// and report.
    pub open spec fn same_program(&self, other: &Self) -> bool {
        &&& self.data() == other.data()
        &&& self.index_spec() == other.index_spec()
        &&& self.report() == other.report()
    }

    /// Creates a face for the first font program in a blob, from what the
    /// engine reported of it.
    ///
    /// A font collection may hold more than one font; use
    /// `Face::from_blob_index` to select a later one.
    pub fn from_blob(blob: &Blob<T>, report: FaceReport) -> (face: Face<T>)
        ensures
            face.data() == blob@,
            face.index_spec() == 0,
            face.report() == report,
            !face.immutable(),
    {
        Face::from_blob_index(blob, 0, report)
    }

    /// Creates a face for the font program `index` in a blob, from what the
    /// engine reported of it.
    ///
    /// The face becomes a holder of the blob's bytes. Bytes that the blob
    /// holds exclusively are copied; to share them instead, clone the blob
    /// first.
    pub fn from_blob_index(blob: &Blob<T>, index: u32, report: FaceReport) -> (face: Face<T>)
        ensures
            face.data() == blob@,
            face.index_spec() == index,
            face.report() == report,
            !face.immutable(),
    {
        Face { source: blob.share_data(), index, report: Arc::new(report), immutable: false }
    }

    /// Borrows the bytes of the font.
    pub fn as_bytes(&self) -> (bytes: &[u8])
        ensures
            bytes@ == self.data(),
    {
        self.source.as_slice()
    }

    /// The index of the font program within its blob.
    pub fn index(&self) -> (index: u32)
        ensures
            index == self.index_spec(),
    {
        self.index
    }

    /// Returns true if the face is immutable.
    pub fn is_immutable(&self) -> (immutable: bool)
        ensures
            immutable == self.immutable(),
    {
        self.immutable
    }

    /// Get the number of glyphs in the font face.
    pub fn glyph_count(&self) -> (count: u32)
        ensures
            count == self.report().glyph_count,
    {
        self.report.glyph_count
    }

    /// The units per em of the font face.
    pub fn units_per_em(&self) -> (upem: u32)
        ensures
            upem == self.report().units_per_em,
    {
        self.report.units_per_em
    }

    /// Create a `Font` for this `Face`. `Font`s are much more lightweight
    /// than `Face`s.
    pub fn font(&self) -> (font: Font<T>)
        ensures
            font.face_spec().same_program(self),
            font.face_spec().immutable() == self.immutable(),
            font.initial(),
    {
        Font::new(self)
    }

    fn has_variation_data(&self) -> (has: bool)
        ensures
            has == self.report().has_variation_data,
    {
        self.report.has_variation_data
    }

    /// Extract the variation axes, if the font has variation data.
    ///
    /// The axis array was sized by a first query and filled by a second one;
    /// where the second reported fewer axes than the first, the array is cut
    /// to that number, so no entry is read that the engine did not write.
    pub fn variation_data(&self) -> (axes: Option<Vec<AxisInfo>>)
        ensures
            axes is Some <==> self.report().has_variation_data,
            match axes {
                Some(list) => self.report().axes() == Some(list@),
                None => self.report().axes() is None,
            },
    {
        if !self.has_variation_data() {
            return None;
        }
        let filled: &Vec<AxisInfo> = &self.report.axis_infos;
        let count: usize = self.report.axis_count as usize;
        let keep: usize = if count < filled.len() {
            count
        } else {
            filled.len()
        };
        let mut data: Vec<AxisInfo> = Vec::new();
        let mut i: usize = 0;
        while i < keep
            invariant
                i <= keep <= filled@.len(),
                data@ == filled@.take(i as int),
            decreases keep - i,
        {
            data.push(filled[i]);
            proof {
                assert(filled@.take(i + 1) =~= filled@.take(i as int).push(filled@[i as int]));
            }
            i += 1;
        }
        proof {
            assert(filled@.take(filled@.len() as int) =~= filled@);
        }
        Some(data)
    }

    /// One more handle on the face, for a font or a view.
    pub(crate) fn share(&self) -> (other: Self)
        ensures
            other.same_program(self),
            other.immutable() == self.immutable(),
    {
        Face {
            source: self.source.share(),
            index: self.index,
            report: arc_share(&self.report),
            immutable: self.immutable,
        }
    }

    /// A read-only view of the face, for as long as the face is borrowed.
    pub(crate) fn view<'a>(&'a self) -> (face: Face<Borrowed<'a>>)
        ensures
            face.data() == self.data(),
            face.index_spec() == self.index_spec(),
            face.report() == self.report(),
            face.immutable() == self.immutable(),
    {
        Face {
            source: Borrowed::new(self.source.as_slice()),
            index: self.index,
            report: arc_share(&self.report),
            immutable: self.immutable,
        }
    }

    /// A second handle on the same face. The face is made immutable first;
    /// every query on either handle answers as it did before.
    pub fn clone(&mut self) -> (other: Self)
        ensures
            final(self).same_program(old(self)),
            final(self).immutable(),
            other.same_program(old(self)),
            other.immutable(),
    {
        self.immutable = true;
        self.share()
    }
}

} // verus!
