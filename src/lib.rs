//! Layout and plugin geometry for a rack of stacked device modules.
//!
//! Coordinates are whole pixels held in `i64`, so that every layout rule is
//! exact integer arithmetic.

mod cable;
mod device;
mod geometry;
mod hover;
mod lexer;
mod palette;
mod pane;
mod plugin;
mod rack;
mod text;
mod viewport;

pub use cable::{Cable, Connection};
pub use device::{
    anchor_x, anchor_y, coord_of, height_for, height_of, layout, lemma_height_for,
    lemma_height_increasing, lemma_plugins_inside, placed, plugins_for, rows, value_text, AlignX,
    AlignY, Device, DeviceKind, JumpCondition, Operation, Slot, Value,
};
pub use geometry::{in_range, Rect, Vec2, COORD_LIMIT};
pub use hover::{Hover, HoverHandler, HoverTarget, Hoverable};
pub use lexer::{token_text, Token};
pub use palette::Palette;
pub use pane::Pane;
pub use plugin::{color_of, radius_of, Plugin, PluginColor, PluginDirection, PluginKind};
pub use rack::{
    inserted, lemma_insert_keeps_stacking, lemma_stacked_ordered, stacked, top_for, Rack,
    RackError,
};
pub use text::{decimal, digit_char, fixed3, signed_decimal};
pub use viewport::Viewport;
