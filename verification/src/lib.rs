//! Board and piece layout for a chess scene.
//!
//! The library holds the logic of the scene: where each board square sits
//! on a fixed 8x8 grid, which tint it gets, which sprite-atlas cell shows a
//! given piece, the fixed table of initial piece locations, the routine
//! that moves rendered pieces onto their table squares, and the hit test
//! that turns a cursor position into a board square. Rendering itself is
//! left to a host application.
//!
//! All positions and scales are measured in thousandths of a world unit,
//! so that the layout stays in exact integers.

pub mod board;
pub mod piece;
pub mod state;
