//! The step from text to glyphs.

use crate::buffer::{Buffer, BufferView, ContentType, GlyphInfo, GlyphPosition};
use crate::font::Font;
use crate::ownership::Ownership;
use vstd::prelude::*;

verus! {

/// Shape a line of text: the buffer, which held characters, holds glyphs and
/// their positions afterwards.
///
/// `infos` and `positions` are what the shaping engine made of the buffer's
/// text with the settings of `font` and the buffer's segment properties, one
/// position for each glyph. The segment properties stay as they are, set or
/// not, and the font is not changed. Only a buffer that holds text is
/// shaped: an invalid buffer, and one that holds glyphs already, is left as
/// it is.
pub fn shape<T: Ownership>(
    font: &Font<T>,
    buffer: &mut Buffer,
    infos: Vec<GlyphInfo>,
    positions: Vec<GlyphPosition>,
)
    requires
        infos@.len() == positions@.len(),
    ensures
        final(buffer)@ == if old(buffer)@.content_type == ContentType::Unicode {
            BufferView {
                content_type: ContentType::Glyphs,
                props: old(buffer)@.props,
                infos: infos@,
                positions: positions@,
            }
        } else {
            old(buffer)@
        },
{
    let _ = font;
    buffer.set_glyphs(infos, positions);
}

} // verus!
