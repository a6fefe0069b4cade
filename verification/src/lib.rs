//! An in-scene interactive text console: keystrokes accumulate into an
//! editable line buffer mirrored to a visible current-line region, and on
//! submission the line is resolved against a fixed command table, appending
//! a response to an append-only transcript.

pub mod keys;
pub mod laws;
pub mod terminal;
pub mod text;
