//! Display state, scrolling and lyric extraction for a terminal lyrics viewer.

pub mod display;
pub mod extract;
pub mod input;
pub mod text;
pub mod token;
pub mod track;
