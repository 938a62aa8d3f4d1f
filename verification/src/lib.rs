//! A verified ownership layer for text-shaping resources: byte blobs, font
//! faces, fonts and shaping buffers.
//!
//! The library holds the resources and their rules: who owns the bytes, what
//! is immutable, which state a buffer is in. What only a shaping engine can
//! tell (the glyphs of a text, the axes of a font, the script of a
//! character) enters as plain values.

pub mod blob;
pub mod buffer;
pub mod direction;
pub mod face;
pub mod float;
pub mod font;
pub mod language;
pub mod ownership;
pub mod script_enum;
pub mod scripts;
mod sealed;
pub mod shape;
pub mod tag;

pub use crate::blob::Blob;
pub use crate::buffer::Buffer;
pub use crate::direction::Direction;
pub use crate::face::Face;
pub use crate::float::Float;
pub use crate::font::Font;
pub use crate::language::Language;
pub use crate::ownership::{Borrowed, BorrowedMut, Owned, Ownership};
pub use crate::scripts::Script;
pub use crate::shape::shape;
pub use crate::tag::{compose_tag, decompose_tag};
