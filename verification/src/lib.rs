//! Verified core of a top-down racing simulator: lap and sector timing,
//! the track editor's undo history, nearest-segment queries over the track
//! centre line, track mesh chunking and the small text helpers of the HUD.

pub mod editor;
pub mod text;
pub mod timing;
pub mod track;
