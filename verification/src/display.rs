//! Text and pixel output building blocks: colors, styles, formatting
//! state, format helpers, and the framebuffer console model.

pub mod color;
pub mod fmt;
pub mod font;
pub mod formatting;
pub mod framebuffer;
pub mod style;
