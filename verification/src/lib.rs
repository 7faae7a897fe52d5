//! A small pretty-printing engine: structured values are first converted
//! into a recursive document model ([`Val`]) and then rendered as
//! deterministic, indented, colour-annotated text for human inspection.

mod colour;
mod doc;
mod laws;
mod render;
mod text;

pub use doc::{from_debug, from_display, EpochId, Key, Pretty, SlotId, Val};
pub use render::{fmt_indent, fmt_key, fmt_pretty, fmt_val, longest_key_length, render};
