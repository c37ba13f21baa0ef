//! The terminal backend abstraction.
//!
//! The core drives any terminal through this interface; concrete backends
//! translate it into their own escape dialect and event parsing.

use vstd::prelude::*;

use crate::error::Error;
use crate::event::Event;

verus! {

/// A terminal the renderer can draw into and the frame loop can poll.
/// Implementations do the real input and output; the core only promises
/// how it drives them.
pub trait Backend {
    /// Enter raw mode: no line buffering, no echo.
    fn enter_raw_mode(&mut self) -> Result<(), Error>;

    /// Leave raw mode.
    fn leave_raw_mode(&mut self) -> Result<(), Error>;

    /// Enter the alternate screen.
    fn enter_alt_screen(&mut self) -> Result<(), Error>;

    /// Leave the alternate screen.
    fn leave_alt_screen(&mut self) -> Result<(), Error>;

    /// Start capturing mouse events.
    fn enable_mouse(&mut self) -> Result<(), Error>;

    /// Stop capturing mouse events.
    fn disable_mouse(&mut self) -> Result<(), Error>;

    /// The terminal size as columns and rows.
    fn size(&self) -> Result<(u16, u16), Error>;

    /// Clear the whole screen.
    fn clear(&mut self) -> Result<(), Error>;

    /// Flush buffered output to the terminal.
    fn flush(&mut self) -> Result<(), Error>;

    /// Write raw bytes.
    fn write(&mut self, content: &[u8]) -> Result<(), Error>;

    /// One event, waiting at most `timeout_ms` milliseconds.
    fn read_event(&mut self, timeout_ms: u64) -> Result<Option<Event>, Error>;

    /// Move the cursor to a cell, zero-indexed.
    fn cursor_goto(&mut self, x: u16, y: u16) -> Result<(), Error>;

    /// Show the cursor.
    fn cursor_show(&mut self) -> Result<(), Error>;

    /// Hide the cursor.
    fn cursor_hide(&mut self) -> Result<(), Error>;
}

} // verus!
