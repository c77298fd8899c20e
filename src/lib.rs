//! Cell encoding and color resolution for a GPU terminal renderer driven by a
//! text-UI framework, with the decisions of the rendering backend.
pub mod backend;
pub mod cell;
pub mod color;
pub mod style;

pub use backend::{BackendState, ClearType, Error, Position};
pub use cell::{cell_data, resolve_fg_bg_colors, Cell, EncodedCell};
pub use color::{indexed_color_to_rgb, to_rgb, Color};
pub use style::{into_glyph_bits, StyleAttributes};
