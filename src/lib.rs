//! Builds ANSI "Select Graphic Rendition" escape sequences and interleaves them
//! with plain text in an in-memory byte stream.
//!
//! * [`registry`]: the attribute codes, their classification into bands, and the
//!   code that cancels each attribute.
//! * [`encoding`]: the exact bytes of every escape sequence, as spec functions and
//!   as verified builders.
//! * [`stream`]: [`AnsiEscapeStream`], the writer.

pub mod encoding;
pub mod registry;
pub mod stream;

pub use stream::AnsiEscapeStream;
