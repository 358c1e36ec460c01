//! Conversion of an HTML fragment into an ordered list of formatted text
//! runs ("rich text"), for embedding into a document cell.
//!
//! The pipeline flattens a nested markup tree into a flat, order-preserving
//! list of text runs, each carrying the stack of enclosing elements active
//! when its text was observed, and then derives concrete formatting facets
//! (font name, size, color, bold, italic, underline, superscript, subscript,
//! strikethrough) for each run from that stack.

pub mod analysis;
pub mod colors;
pub mod convert;
pub mod flat;
pub mod node;
pub mod numtok;
pub mod rich;
pub mod strutil;
