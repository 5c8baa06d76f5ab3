//! A texture atlas in integer pixel space: one texture sheet, the ordered
//! list of rectangles that cut it into sprites, and an optional table from
//! texture handles to positions in that list.
//!
//! Every executable function carries a contract that Verus proves.

pub mod geometry;
pub mod padding;
pub mod grid;
pub mod handle;
pub mod atlas;
pub mod sprite;
pub mod theorems;
