//! The shaping buffer and the types around it.
//!
//! A `Buffer` holds the text to shape, the segment properties that say how,
//! and, once the text was shaped, the glyphs and their positions.

use crate::direction::Direction;
use crate::language::Language;
use crate::scripts::Script;
use vstd::prelude::*;
use vstd::std_specs::iter::IteratorSpec;
use vstd::utf8::{encode_scalar, encode_utf8};

verus! {

/// The different states a `Buffer` might be in.
///
/// A new buffer is invalid; once text has been added it is unicode; once it
/// has been shaped it holds glyphs.
#[derive(Debug, Copy, Clone, PartialEq, Eq, Structural)]
pub enum ContentType {
    /// The buffer has not yet been loaded with text.
    Invalid,
    /// The buffer contains text and is ready for shaping.
    Unicode,
    /// Shaping has run and the buffer contains glyphs and their positions.
    Glyphs,
}

impl ContentType {
    /// The numeric code of a content type.
    pub open spec fn code(self) -> u32 {
        match self {
            ContentType::Invalid => 0,
            ContentType::Unicode => 1,
            ContentType::Glyphs => 2,
        }
    }

    /// The content type with the given code, or `None` for a number that is
    /// no content type's code.
    pub fn try_from_raw(raw: u32) -> (found: Option<Self>)
        ensures
            found is Some <==> raw <= 2,
            found matches Some(content_type) ==> content_type.code() == raw,
    {
        match raw {
            0 => Some(ContentType::Invalid),
            1 => Some(ContentType::Unicode),
            2 => Some(ContentType::Glyphs),
            _ => None,
        }
    }

    /// The content type with the given code.
    pub fn from_raw(raw: u32) -> (content_type: Self)
        requires
            raw <= 2,
        ensures
            content_type.code() == raw,
    {
        if raw == 0 {
            ContentType::Invalid
        } else if raw == 1 {
            ContentType::Unicode
        } else {
            ContentType::Glyphs
        }
    }

    /// The code of this content type.
    pub fn into_raw(self) -> (raw: u32)
        ensures
            raw == self.code(),
    {
        match self {
            ContentType::Invalid => 0,
            ContentType::Unicode => 1,
            ContentType::Glyphs => 2,
        }
    }
}

/// Properties for a shaping run: direction, script and language.
///
/// Can be used with `Buffer::set_segment_properties` to set the three at
/// once.
#[derive(Debug, Copy, Clone, PartialEq, Eq, Structural)]
pub struct SegmentProperties {
    /// The direction of the run; `Direction::Invalid` while unset.
    pub direction: Direction,
    /// The script of the run; `Script::Invalid` while unset.
    pub script: Script,
    /// The language of the run; the invalid language while unset.
    pub language: Language,
}

impl SegmentProperties {
    /// Properties with nothing set.
    pub open spec fn unset() -> SegmentProperties {
        SegmentProperties {
            direction: Direction::Invalid,
            script: Script::Invalid,
            language: Language { raw: 0 },
        }
    }

    /// Properties with nothing set.
    pub fn uninit() -> (props: Self)
        ensures
            props == Self::unset(),
    {
        SegmentProperties {
            direction: Direction::Invalid,
            script: Script::Invalid,
            language: Language::invalid(),
        }
    }

    /// Properties made of the three given values.
    pub fn new(direction: Direction, script: Script, language: Language) -> (props: Self)
        ensures
            props == (SegmentProperties { direction, script, language }),
    {
        SegmentProperties { direction, script, language }
    }

    /// The direction set in this segment properties.
    pub fn direction(&self) -> (direction: Direction)
        ensures
            direction == self.direction,
    {
        self.direction
    }

    /// Sets the direction in this segment properties.
    pub fn set_direction(&mut self, direction: Direction)
        ensures
            *final(self) == (SegmentProperties { direction, ..*old(self) }),
    {
        self.direction = direction;
    }

    /// The script set in this segment properties.
    pub fn script(&self) -> (script: Script)
        ensures
            script == self.script,
    {
        self.script
    }

    /// Sets the script in this segment properties.
    pub fn set_script(&mut self, script: Script)
        ensures
            *final(self) == (SegmentProperties { script, ..*old(self) }),
    {
        self.script = script;
    }

    /// The language set in this segment properties.
    pub fn language(&self) -> (language: Language)
        ensures
            language == self.language,
    {
        self.language
    }

    /// Sets the language in this segment properties.
    pub fn set_language(&mut self, language: Language)
        ensures
            *final(self) == (SegmentProperties { language, ..*old(self) }),
    {
        self.language = language;
    }
}

/// One item of a buffer: a character before shaping, a glyph after it.
#[derive(Debug, Copy, Clone, PartialEq, Eq, Structural)]
pub struct GlyphInfo {
    /// The Unicode code point before shaping, the glyph index after it.
    pub codepoint: u32,
    /// The mask of the item, for the engine's own use.
    pub mask: u32,
    /// The index, in the text that was added, of the first byte of the
    /// character that the item belongs to.
    pub cluster: u32,
}

/// Where to draw a glyph, and how far to move on after it.
#[derive(Debug, Copy, Clone, PartialEq, Eq, Structural)]
pub struct GlyphPosition {
    /// How far the line advances along the x axis after the glyph.
    pub x_advance: i32,
    /// How far the line advances along the y axis after the glyph.
    pub y_advance: i32,
    /// How far the glyph is moved along the x axis before it is drawn.
    pub x_offset: i32,
    /// How far the glyph is moved along the y axis before it is drawn.
    pub y_offset: i32,
}

impl GlyphPosition {
    /// The amount to move the cursor across after drawing this glyph in
    /// horizontal shaping.
    pub fn x_advance(&self) -> (advance: i32)
        ensures
            advance == self.x_advance,
    {
        self.x_advance
    }

    /// The amount to move the cursor down or up after drawing this glyph in
    /// vertical shaping.
    pub fn y_advance(&self) -> (advance: i32)
        ensures
            advance == self.y_advance,
    {
        self.y_advance
    }

    /// The amount to offset from the cursor before starting to draw the
    /// glyph (in the x axis).
    pub fn x_offset(&self) -> (offset: i32)
        ensures
            offset == self.x_offset,
    {
        self.x_offset
    }

    /// The amount to offset from the cursor before starting to draw the
    /// glyph (in the y axis).
    pub fn y_offset(&self) -> (offset: i32)
        ensures
            offset == self.y_offset,
    {
        self.y_offset
    }
}

/// A glyph to draw.
#[derive(Debug, Copy, Clone, PartialEq, Eq, Structural)]
pub struct Glyph {
    /// The index of the glyph in the font.
    pub index: u32,
    /// The position to draw the glyph at, and the amount to move the cursor
    /// by after.
    pub position: GlyphPosition,
}

/// The glyphs of a shaped buffer: its items and their positions, two slices
/// of the same length.
pub struct Glyphs<'a> {
    infos: &'a [GlyphInfo],
    positions: &'a [GlyphPosition],
}

impl<'a> Glyphs<'a> {
    #[verifier::type_invariant]
    spec fn paired(self) -> bool {
        self.infos@.len() == self.positions@.len()
    }

    /// The items, in buffer order.
    pub closed spec fn infos_spec(&self) -> Seq<GlyphInfo> {
        self.infos@
    }

    /// The positions, in buffer order.
    pub closed spec fn positions_spec(&self) -> Seq<GlyphPosition> {
        self.positions@
    }

    /// The glyph records: the glyph index of each item with its position.
    pub open spec fn records(&self) -> Seq<Glyph> {
        Seq::new(
            self.infos_spec().len(),
            |i: int| Glyph { index: self.infos_spec()[i].codepoint, position: self.positions_spec()[i] },
        )
    }

    /// Get the underlying items, from which the glyph indices come.
    pub fn infos(&self) -> (infos: &'a [GlyphInfo])
        ensures
            infos@ == self.infos_spec(),
            infos@.len() == self.positions_spec().len(),
    {
        proof {
            use_type_invariant(self);
        }
        self.infos
    }

    /// Get the positions to draw the glyphs at.
    pub fn positions(&self) -> (positions: &'a [GlyphPosition])
        ensures
            positions@ == self.positions_spec(),
            positions@.len() == self.infos_spec().len(),
    {
        proof {
            use_type_invariant(self);
        }
        self.positions
    }

    /// The number of glyphs.
    pub fn len(&self) -> (n: usize)
        ensures
            n == self.infos_spec().len(),
            n == self.positions_spec().len(),
    {
        proof {
            use_type_invariant(self);
        }
        self.infos.len()
    }

    /// The glyphs to draw, in buffer order.
    pub fn iter(&self) -> (glyphs: Vec<Glyph>)
        ensures
            glyphs@ == self.records(),
    {
        proof {
            use_type_invariant(self);
        }
        let n: usize = self.infos.len();
        let mut glyphs: Vec<Glyph> = Vec::new();
        let mut i: usize = 0;
        while i < n
            invariant
                i <= n,
                n == self.infos@.len(),
                n == self.positions@.len(),
                glyphs@ == self.records().take(i as int),
            decreases n - i,
        {
            glyphs.push(Glyph { index: self.infos[i].codepoint, position: self.positions[i] });
            proof {
                assert(self.records().take(i + 1) =~= self.records().take(i as int).push(
                    self.records()[i as int],
                ));
            }
            i += 1;
        }
        proof {
            assert(self.records().take(n as int) =~= self.records());
        }
        glyphs
    }
}

/// What a buffer holds, as mathematics.
pub ghost struct BufferView {
    /// The state of the buffer.
    pub content_type: ContentType,
    /// The segment properties.
    pub props: SegmentProperties,
    /// The items: characters or glyphs.
    pub infos: Seq<GlyphInfo>,
    /// The positions of the glyphs; empty unless the buffer holds glyphs.
    pub positions: Seq<GlyphPosition>,
}

impl BufferView {
    /// What holds of every buffer: an invalid buffer is empty, and positions
    /// are there, one for each item, exactly when the buffer holds glyphs.
    pub open spec fn well_formed(self) -> bool {
        &&& self.content_type == ContentType::Invalid ==> self.infos.len() == 0
        &&& self.content_type == ContentType::Glyphs ==> self.positions.len() == self.infos.len()
        &&& self.content_type != ContentType::Glyphs ==> self.positions.len() == 0
    }

    /// The buffer with nothing in it and the given properties.
    pub open spec fn cleared(props: SegmentProperties) -> BufferView {
        BufferView {
            content_type: ContentType::Invalid,
            props,
            infos: Seq::empty(),
            positions: Seq::empty(),
        }
    }
}

/// The item that the character at index `i` of a text becomes: its code
/// point, with the index of its first byte in the UTF-8 form of the text.
/// The index is kept in 32 bits, so it wraps round after four gibibytes.
pub open spec fn text_item(text: Seq<char>, i: int) -> GlyphInfo {
    GlyphInfo {
        codepoint: text[i] as u32,
        mask: 0,
        cluster: (encode_utf8(text.take(i)).len() % 0x1_0000_0000) as u32,
    }
}

/// The items that a text becomes, one for each character.
pub open spec fn text_items(text: Seq<char>) -> Seq<GlyphInfo> {
    Seq::new(text.len(), |i: int| text_item(text, i))
}

/// Whether a script says something of the text it is found in: every script
/// does but `Common`, `Inherited` and `Unknown`.
pub open spec fn is_distinctive(script: Script) -> bool {
    script != Script::Common && script != Script::Inherited && script != Script::Unknown
}

/// The first distinctive script of a sequence, and `Script::Invalid` where
/// there is none.
pub open spec fn first_distinctive(scripts: Seq<Script>) -> Script
    decreases scripts.len(),
{
    if scripts.len() == 0 {
        Script::Invalid
    } else if is_distinctive(scripts[0]) {
        scripts[0]
    } else {
        first_distinctive(scripts.drop_first())
    }
}

/// The range that a request for the items `start..end` of `len` items is cut
/// down to: `end` is lowered to `len`, then `start` to `end`.
pub open spec fn clamped_range(len: int, start: int, end: int) -> (int, int) {
    let end = if end > len {
        len
    } else {
        end
    };
    let start = if start > end {
        end
    } else {
        start
    };
    (start, end)
}

/// The UTF-8 form of a text with one more character is longer by the
/// encoded length of the character.
proof fn lemma_encode_push(text: Seq<char>, c: char)
    ensures
        encode_utf8(text.push(c)).len() == encode_utf8(text).len() + encode_scalar(c as u32).len(),
    decreases text.len(),
{
    if text.len() == 0 {
        assert(text.push(c).drop_first() =~= Seq::<char>::empty());
        assert(encode_utf8(text.push(c).drop_first()).len() == 0);
    } else {
        assert(text.push(c).drop_first() =~= text.drop_first().push(c));
        lemma_encode_push(text.drop_first(), c);
    }
}

/// A series of Unicode characters, or, after shaping, of glyphs.
///
/// Besides the text, three properties say how a piece of text is shaped:
/// the direction in which the glyphs flow, the script, and the language.
/// They can be set one by one or together, and
/// `guess_segment_properties` fills in those that were left unset.
#[derive(Debug)]
pub struct Buffer {
    content_type: ContentType,
    props: SegmentProperties,
    infos: Vec<GlyphInfo>,
    positions: Vec<GlyphPosition>,
}

impl View for Buffer {
    type V = BufferView;

    closed spec fn view(&self) -> BufferView {
        BufferView {
            content_type: self.content_type,
            props: self.props,
            infos: self.infos@,
            positions: self.positions@,
        }
    }
}

impl Default for Buffer {
    /// Create a new, empty buffer.
    fn default() -> (buffer: Self)
        ensures
            buffer@ == BufferView::cleared(SegmentProperties::unset()),
    {
        Buffer {
            content_type: ContentType::Invalid,
            props: SegmentProperties::uninit(),
            infos: Vec::new(),
            positions: Vec::new(),
        }
    }
}

impl Buffer {
    #[verifier::type_invariant]
    spec fn well_formed(self) -> bool {
        self@.well_formed()
    }

    /// Create a new, empty buffer.
    pub fn new() -> (buffer: Self)
        ensures
            buffer@ == BufferView::cleared(SegmentProperties::unset()),
    {
        Buffer::default()
    }

    /// Moves the contents out and leaves the buffer empty.
    fn take(&mut self) -> (taken: Buffer)
        ensures
            taken@ == old(self)@,
            final(self)@ == BufferView::cleared(SegmentProperties::unset()),
    {
        let mut taken = Buffer::default();
        std::mem::swap(self, &mut taken);
        taken
    }

    /// Create a new buffer with the given text.
    pub fn with(text: &str) -> (buffer: Self)
        ensures
            buffer@ == (BufferView {
                content_type: ContentType::Unicode,
                infos: text_items(text@),
                ..BufferView::cleared(SegmentProperties::unset())
            }),
    {
        let mut b = Buffer::new();
        b.add_str(text);
        assert(Seq::<GlyphInfo>::empty() + text_items(text@) =~= text_items(text@));
        b
    }

    /// Create a new, empty buffer with room for `capacity` items. The
    /// capacity is a hint: it bounds nothing.
    pub fn with_capacity(capacity: usize) -> (buffer: Self)
        ensures
            buffer@ == BufferView::cleared(SegmentProperties::unset()),
    {
        let mut b = Buffer::default();
        b.reserve(capacity);
        b
    }

    /// Add UTF-8 encoded text to the buffer: one item for each character,
    /// after the items that are there. The buffer then holds text.
    ///
    /// A buffer that holds glyphs takes no text: it is left as it is, and has
    /// to be cleared first.
    pub fn add_str(&mut self, text: &str)
        ensures
            final(self)@ == if old(self)@.content_type == ContentType::Glyphs {
                old(self)@
            } else {
                BufferView {
                    content_type: ContentType::Unicode,
                    infos: old(self)@.infos + text_items(text@),
                    ..old(self)@
                }
            },
    {
        proof {
            use_type_invariant(&*self);
        }
        if self.content_type == ContentType::Glyphs {
            return ;
        }
        broadcast use vstd::string::axiom_spec_iter, vstd::string::next_postcondition;

        let Buffer { content_type: _, props, mut infos, positions } = self.take();
        let ghost before = infos@;
        let ghost chars = text@;
        let mut rest = text.chars();
        let mut offset: u32 = 0;
        let ghost mut i: int = 0;
        proof {
            assert(chars.skip(0) =~= chars);
            assert(chars.take(0) =~= Seq::<char>::empty());
            assert(text_items(chars).take(0) =~= Seq::<GlyphInfo>::empty());
            assert(before + Seq::<GlyphInfo>::empty() =~= before);
        }
        loop
            invariant
                0 <= i <= chars.len(),
                rest.remaining() == chars.skip(i),
                offset == encode_utf8(chars.take(i)).len() % 0x1_0000_0000,
                infos@ == before + text_items(chars).take(i),
            ensures
                i == chars.len(),
            decreases chars.len() - i,
        {
            match rest.next() {
                None => {
                    assert(chars.skip(i).len() == 0);
                    break ;
                },
                Some(c) => {
                    proof {
                        assert(chars.skip(i)[0] == chars[i]);
                        assert(chars.skip(i).drop_first() =~= chars.skip(i + 1));
                        assert(chars.take(i + 1) =~= chars.take(i).push(c));
                        lemma_encode_push(chars.take(i), c);
                        vstd::utf8::char_is_scalar(c);
                        assert(text_items(chars).take(i + 1) =~= text_items(chars).take(i).push(
                            text_item(chars, i),
                        ));
                    }
                    let code: u32 = c as u32;
                    let width: u32 = if code < 0x80 {
                        1
                    } else if code < 0x800 {
                        2
                    } else if code < 0x1_0000 {
                        3
                    } else {
                        4
                    };
                    assert(encode_scalar(code).len() == width);
                    infos.push(GlyphInfo { codepoint: code, mask: 0, cluster: offset });
                    offset = offset.wrapping_add(width);
                    proof {
                        i = i + 1;
                    }
                },
            }
        }
        proof {
            assert(text_items(chars).take(i) =~= text_items(chars));
        }
        *self = Buffer { content_type: ContentType::Unicode, props, infos, positions };
    }

    /// Append part of the contents of another buffer to this one: its items
    /// `start..end`, with their positions where there are any. `end` is cut
    /// down to the length of the other buffer, and `start` to `end`. An
    /// empty buffer takes over the content type of what it is given.
    ///
    /// Text and glyphs do not mix: unless one of the two buffers is empty,
    /// they must have the same content type.
    pub fn append(&mut self, other: &Buffer, start: usize, end: usize)
        requires
            old(self)@.infos.len() == 0 || other@.infos.len() == 0 || old(self)@.content_type
                == other@.content_type,
        ensures
            ({
                let (from, to) = clamped_range(other@.infos.len() as int, start as int, end as int);
                final(self)@ == if from == to {
                    old(self)@
                } else {
                    BufferView {
                        content_type: other@.content_type,
                        props: old(self)@.props,
                        infos: old(self)@.infos + other@.infos.subrange(from, to),
                        positions: if other@.content_type == ContentType::Glyphs {
                            old(self)@.positions + other@.positions.subrange(from, to)
                        } else {
                            Seq::empty()
                        },
                    }
                }
            }),
    {
        proof {
            use_type_invariant(&*self);
            use_type_invariant(other);
        }
        let to: usize = if end > other.infos.len() {
            other.infos.len()
        } else {
            end
        };
        let from: usize = if start > to {
            to
        } else {
            start
        };
        if from == to {
            return ;
        }
        let Buffer { content_type, props, mut infos, mut positions } = self.take();
        let with_positions: bool = other.content_type == ContentType::Glyphs;
        if content_type != other.content_type {
            positions = Vec::new();
        }
        let ghost infos_before = infos@;
        let ghost positions_before = positions@;
        proof {
            assert(other.infos@.subrange(from as int, from as int) =~= Seq::<GlyphInfo>::empty());
            assert(infos_before + Seq::<GlyphInfo>::empty() =~= infos_before);
            if with_positions {
                assert(other.positions@.subrange(from as int, from as int) =~= Seq::<
                    GlyphPosition,
                >::empty());
                assert(positions_before + Seq::<GlyphPosition>::empty() =~= positions_before);
            }
        }
        let mut i: usize = from;
        while i < to
            invariant
                from <= i <= to <= other.infos@.len(),
                with_positions == (other.content_type == ContentType::Glyphs),
                other.content_type != ContentType::Invalid,
                with_positions ==> other.positions@.len() == other.infos@.len(),
                with_positions ==> positions_before.len() == infos_before.len(),
                !with_positions ==> positions_before.len() == 0,
                infos@ == infos_before + other.infos@.subrange(from as int, i as int),
                positions@ == if with_positions {
                    positions_before + other.positions@.subrange(from as int, i as int)
                } else {
                    positions_before
                },
            decreases to - i,
        {
            infos.push(other.infos[i]);
            if with_positions {
                positions.push(other.positions[i]);
            }
            proof {
                assert(other.infos@.subrange(from as int, i + 1) =~= other.infos@.subrange(
                    from as int,
                    i as int,
                ).push(other.infos@[i as int]));
                if with_positions {
                    assert(other.positions@.subrange(from as int, i + 1)
                        =~= other.positions@.subrange(from as int, i as int).push(
                        other.positions@[i as int],
                    ));
                }
            }
            i += 1;
        }
        proof {
            assert(!with_positions ==> positions@ =~= Seq::<GlyphPosition>::empty());
        }
        *self = Buffer { content_type: other.content_type, props, infos, positions };
    }

    /// Throw away the contents of the buffer, text or glyphs, and keep what
    /// was configured: direction, script and language stay as they are. The
    /// buffer is invalid afterwards.
    pub fn clear_contents(&mut self)
        ensures
            final(self)@ == BufferView::cleared(old(self)@.props),
    {
        let props = self.props;
        *self = Buffer {
            content_type: ContentType::Invalid,
            props,
            infos: Vec::new(),
            positions: Vec::new(),
        };
    }

    /// Throw away all that the buffer holds, the segment properties too. The
    /// buffer is as `Buffer::new` makes it.
    pub fn reset(&mut self)
        ensures
            final(self)@ == BufferView::cleared(SegmentProperties::unset()),
    {
        *self = Buffer::default();
    }

    /// Preallocate space to fit at least `size` items, where the allocator
    /// grants it. The contents stay as they are.
    pub fn reserve(&mut self, size: usize)
        ensures
            final(self)@ == old(self)@,
    {
        proof {
            use_type_invariant(&*self);
        }
        let Buffer { content_type, props, mut infos, positions } = self.take();
        if size > infos.len() {
            let _ = infos.try_reserve(size - infos.len());
        }
        *self = Buffer { content_type, props, infos, positions };
    }

    /// Returns the number of items in the buffer, also referred to as its
    /// 'length'.
    pub fn len(&self) -> (n: usize)
        ensures
            n == self@.infos.len(),
    {
        self.infos.len()
    }

    /// Returns `true` if the buffer contains no data.
    pub fn is_empty(&self) -> (empty: bool)
        ensures
            empty == (self@.infos.len() == 0),
    {
        self.len() == 0
    }

    /// The items of the buffer: the characters of the text, or the glyphs.
    pub fn infos(&self) -> (infos: &[GlyphInfo])
        ensures
            infos@ == self@.infos,
    {
        self.infos.as_slice()
    }

    /// The script that `guess_segment_properties` settles on, given the
    /// script of each item: the script that is set, and where none is set
    /// the first distinctive one among `scripts`.
    pub fn guess_script(&self, scripts: &[Script]) -> (script: Script)
        ensures
            script == if self@.props.script != Script::Invalid {
                self@.props.script
            } else {
                first_distinctive(scripts@)
            },
    {
        if self.props.script != Script::Invalid {
            return self.props.script;
        }
        let n: usize = scripts.len();
        let mut i: usize = 0;
        proof {
            assert(scripts@.skip(0) =~= scripts@);
        }
        while i < n
            invariant
                i <= n == scripts@.len(),
                self@.props.script == Script::Invalid,
                first_distinctive(scripts@) == first_distinctive(scripts@.skip(i as int)),
            decreases n - i,
        {
            let script = scripts[i];
            proof {
                assert(scripts@.skip(i as int)[0] == scripts@[i as int]);
                assert(scripts@.skip(i as int).drop_first() =~= scripts@.skip(i + 1));
            }
            if script != Script::Common && script != Script::Inherited && script
                != Script::Unknown {
                return script;
            }
            i += 1;
        }
        proof {
            assert(scripts@.skip(n as int).len() == 0);
        }
        Script::Invalid
    }

    /// Sets unset segment properties based on the text, and leaves those
    /// that are set as they are. Only a buffer that holds text, and at least
    /// one character of it, is changed.
    ///
    /// `scripts` holds the script of each item of the buffer, in order. An
    /// unset script becomes the first distinctive one of them (see
    /// `guess_script`), and stays unset where there is none. An unset
    /// direction becomes `natural_direction`, which the caller passes as the
    /// natural horizontal direction of the script that `guess_script`
    /// returns. An unset language becomes `default_language`.
    pub fn guess_segment_properties(
        &mut self,
        scripts: &[Script],
        natural_direction: Direction,
        default_language: Language,
    )
        ensures
            final(self)@ == (BufferView {
                props: Self::guessed(old(self)@, scripts@, natural_direction, default_language),
                ..old(self)@
            }),
    {
        proof {
            use_type_invariant(&*self);
        }
        if self.content_type != ContentType::Unicode || self.infos.len() == 0 {
            return ;
        }
        let script = self.guess_script(scripts);
        let direction = if self.props.direction == Direction::Invalid {
            natural_direction
        } else {
            self.props.direction
        };
        let language = if self.props.language.is_valid() {
            self.props.language
        } else {
            default_language
        };
        self.props = SegmentProperties { direction, script, language };
    }

    /// The properties that `guess_segment_properties` leaves a buffer with.
    pub open spec fn guessed(
        view: BufferView,
        scripts: Seq<Script>,
        natural_direction: Direction,
        default_language: Language,
    ) -> SegmentProperties {
        if view.content_type == ContentType::Unicode && view.infos.len() > 0 {
            SegmentProperties {
                direction: if view.props.direction == Direction::Invalid {
                    natural_direction
                } else {
                    view.props.direction
                },
                script: if view.props.script == Script::Invalid {
                    first_distinctive(scripts)
                } else {
                    view.props.script
                },
                language: if view.props.language.valid() {
                    view.props.language
                } else {
                    default_language
                },
            }
        } else {
            view.props
        }
    }

    /// Set the text flow direction of the buffer.
    pub fn set_direction(&mut self, direction: Direction)
        ensures
            final(self)@ == (BufferView {
                props: SegmentProperties { direction, ..old(self)@.props },
                ..old(self)@
            }),
    {
        proof {
            use_type_invariant(&*self);
        }
        self.props = SegmentProperties { direction, ..self.props };
    }

    /// Get the text flow direction for the buffer.
    pub fn get_direction(&self) -> (direction: Direction)
        ensures
            direction == self@.props.direction,
    {
        self.props.direction
    }

    /// Sets the script of the buffer.
    pub fn set_script(&mut self, script: Script)
        ensures
            final(self)@ == (BufferView {
                props: SegmentProperties { script, ..old(self)@.props },
                ..old(self)@
            }),
    {
        proof {
            use_type_invariant(&*self);
        }
        self.props = SegmentProperties { script, ..self.props };
    }

    /// Get the script for the buffer.
    pub fn get_script(&self) -> (script: Script)
        ensures
            script == self@.props.script,
    {
        self.props.script
    }

    /// Sets the language of the buffer.
    pub fn set_language(&mut self, language: Language)
        ensures
            final(self)@ == (BufferView {
                props: SegmentProperties { language, ..old(self)@.props },
                ..old(self)@
            }),
    {
        proof {
            use_type_invariant(&*self);
        }
        self.props = SegmentProperties { language, ..self.props };
    }

    /// Get the language for the buffer.
    pub fn get_language(&self) -> (language: Language)
        ensures
            language == self@.props.language,
    {
        self.props.language
    }

    /// Gets the current content type of the buffer. Every buffer is well
    /// formed, and a caller learns so here.
    pub fn content_type(&self) -> (content_type: ContentType)
        ensures
            content_type == self@.content_type,
            self@.well_formed(),
    {
        proof {
            use_type_invariant(self);
        }
        self.content_type
    }

    /// Get the currently set segment properties.
    pub fn segment_properties(&self) -> (props: SegmentProperties)
        ensures
            props == self@.props,
    {
        self.props
    }

    /// Set the three segment properties at once.
    pub fn set_segment_properties(&mut self, props: SegmentProperties)
        ensures
            final(self)@ == (BufferView { props, ..old(self)@ }),
    {
        proof {
            use_type_invariant(&*self);
        }
        self.props = props;
    }

    /// Get the glyphs and their positions: `None` unless the buffer holds
    /// glyphs, and then the items with one position each.
    pub fn glyphs<'a>(&'a self) -> (glyphs: Option<Glyphs<'a>>)
        ensures
            glyphs is Some <==> self@.content_type == ContentType::Glyphs,
            glyphs matches Some(found) ==> {
                &&& found.infos_spec() == self@.infos
                &&& found.positions_spec() == self@.positions
                &&& found.infos_spec().len() == found.positions_spec().len()
            },
    {
        proof {
            use_type_invariant(self);
        }
        if self.content_type != ContentType::Glyphs {
            return None;
        }
        Some(Glyphs { infos: self.infos.as_slice(), positions: self.positions.as_slice() })
    }

    /// Takes the outcome of shaping: the buffer holds the given glyphs
    /// afterwards. Only a buffer that holds text is changed.
    pub(crate) fn set_glyphs(&mut self, infos: Vec<GlyphInfo>, positions: Vec<GlyphPosition>)
        requires
            infos@.len() == positions@.len(),
        ensures
            final(self)@ == if old(self)@.content_type == ContentType::Unicode {
                BufferView {
                    content_type: ContentType::Glyphs,
                    props: old(self)@.props,
                    infos: infos@,
                    positions: positions@,
                }
            } else {
                old(self)@
            },
    {
        if self.content_type == ContentType::Unicode {
            let props = self.props;
            *self = Buffer { content_type: ContentType::Glyphs, props, infos, positions };
        }
    }
}

} // verus!
