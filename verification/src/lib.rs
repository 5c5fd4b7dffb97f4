//! Shows the record of a creature in a terminal: its fields as plain
//! lines or in a bordered table, and its sprite as art made of coloured
//! block glyphs.
//!
//! The library holds everything between the requests of a run and its
//! output: which addresses to ask (`request`), what a record is
//! (`record`), how the bytes of a sprite become a grid of pixels
//! (`sprite`, `pixel`), how a grid becomes art (`render`, with what holds
//! of all art in `art_laws`), how a record is laid out as lines
//! (`present`) or as a table (`table`), in which order all this happens
//! (`session`), and how a run fails (`failure`). Decoding images, drawing
//! tables and changing the case of letters are left to other crates and
//! to the standard library; what is believed of them is said where they
//! are called.

pub mod art_laws;
pub mod decimal;
pub mod failure;
pub mod pixel;
pub mod present;
pub mod record;
pub mod render;
pub mod request;
pub mod session;
pub mod sprite;
pub mod table;
pub mod text;
