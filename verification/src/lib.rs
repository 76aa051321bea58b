//! A list-selection menu for terminal user interfaces.
//!
//! A [`Menu`] owns an ordered list of text items and a cursor that marks one of
//! them. The cursor moves up and down with wrap-around, or jumps to either end,
//! and [`Menu::render`] describes what the menu looks like inside a bordered
//! box. A [`MenuView`] routes key presses to those cursor moves.
//!
//! Every function is verified with Verus against the mathematical model
//! [`MenuState`]; the module [`cycle`] proves how repeated moves behave.

pub mod cycle;
pub mod draw;
pub mod input;
pub mod menu;

pub use draw::{Area, Color, Drawing, Row, Style};
pub use input::{Key, MenuView};
pub use menu::{to_string_vec, Menu, MenuState, Move};
