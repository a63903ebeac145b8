//! Frame-update logic of a small 2D demo: keyboard-driven player movement
//! and a clamped, wheel-driven scrolling list.
//!
//! All quantities are integers. Player positions are measured in hundredths of
//! a world unit; scroll offsets, layout heights and wheel deltas in pixels.
pub mod movement;
pub mod scroll;
