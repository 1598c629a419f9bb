//! A terminal canvas: a fixed-size grid of colored two-character cells, the
//! commands that render it, and the mapping from mouse clicks to grid cells.
pub mod cell;
pub mod grid;
pub mod mouse;

pub use cell::{Cell, CellView};
pub use grid::{DrawCommand, DrawCommandView, Grid, GridError, GridResult, GridView, Point};
pub use mouse::{map_click, mouse_click, mouse_click_or_drag};
