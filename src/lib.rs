//! Marshaling layer between host values and the calculator firmware's screen,
//! cursor, font and colour entry points.
//!
//! The firmware itself is a black box. What this library states and proves is
//! the adapter's own logic: how a string becomes a null-terminated byte buffer,
//! how a written output buffer becomes a string again, how status codes become
//! booleans, and how the scalar outputs of a cursor query become a
//! [`CursorPosition`].
use vstd::prelude::*;

pub mod cursor;
pub mod error;
pub mod marshal;
pub mod output;

pub use cursor::CursorPosition;
pub use error::ScreenError;

