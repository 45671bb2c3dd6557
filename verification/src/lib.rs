//! Rewrites the audio references of cue sheets.
//!
//! A cue sheet names the audio file it describes. When that file has been
//! converted from `.wav` to `.flac` or `.ape`, the sheet has to follow. This
//! library holds the decisions of that job: how the bytes of a sheet become
//! text, which replacement the neighbouring files call for, what the text looks
//! like afterwards, and whether anything has to be written back. Reading
//! directories and files is left to the caller.

pub mod encoding;
pub mod replace;
pub mod rewrite;
pub mod siblings;
pub mod text;
pub mod walk;
