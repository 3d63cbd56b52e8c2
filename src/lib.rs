use vstd::prelude::*;

pub mod buffer;
pub mod color;
pub mod console;
pub mod laws;
pub mod writer;

pub use buffer::{Buffer, ScreenChar, BUFFER_HEIGHT, BUFFER_WIDTH};
pub use color::{Color, ColorCode, DebugLevel};
pub use console::{_clear_screen, _debug, _print};
pub use writer::{Screen, Writer};

verus! {

} // verus!
