//! A four-pane text console multiplexer on a fixed character grid.
//!
//! The grid is split into four quadrant windows. Keystrokes either move the focus
//! between windows or type into the focused window's line buffer; each refresh yields
//! the cells to write to the display.

pub mod ring;
pub mod pane;
pub mod layout;
pub mod render;
pub mod console;

pub use console::{KeyEvent, RawKey, SwimInterface};
pub use ring::{add1, safe_add, sub1};
