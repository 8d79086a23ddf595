//! The terminal client's event source: key presses and timer ticks. The
//! I/O shell polls the terminal and translates its events into these.
use crate::tui::input::KeyPress;
use vstd::prelude::*;

verus! {

/// One event handed to the client's main loop.
#[derive(Clone, Debug)]
pub enum Event {
    Key(KeyPress),
    Tick,
    Render,
}

/// The polling cadence of the event loop.
pub struct EventHandler {
    pub tick_rate_ms: u64,
}

impl EventHandler {
    pub fn new(tick_rate_ms: u64) -> (r: EventHandler)
        ensures
            r.tick_rate_ms == tick_rate_ms,
    {
        EventHandler { tick_rate_ms }
    }
}

} // verus!
