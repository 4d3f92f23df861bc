//! Stepwise iteration over text held as UTF-16 code units.
//!
//! [`code_point`] decodes the code point that starts at a position of a code
//! unit sequence, taking a leading and a trailing surrogate together.
//! [`iterator`] holds the iteration state and its step operation, which yields
//! one code point's code units at a time and then stays exhausted.
//! [`segmentation`] states what repeated steps make of a whole text.
//! [`prototype`] describes what the iterator prototype exposes to the host.

pub mod code_point;
pub mod iterator;
pub mod prototype;
pub mod segmentation;
