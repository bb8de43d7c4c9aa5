//! Core logic of a small 2D sprite game: 8-directional facing selection,
//! sprite-sheet frame advance, keyboard-driven movement, and linear position
//! integration.
//!
//! All quantities that the host engine carries as fractional numbers are
//! modelled here in fixed point: times in integer microseconds or
//! milliseconds, positions, speeds and health in thousandths of a unit.
//! Direction components are plain signs (-1, 0, 1). The engine loop, the
//! window, rendering and device input live outside this crate; they hand the
//! library plain values once per frame and take plain values back.

pub mod animation;
pub mod movement;
pub mod player;
