//! The terminal/runtime events that drive one iteration of the loop.

use vstd::prelude::*;

use crate::keys::KeyPress;

verus! {

/// One event delivered by the terminal surface or by the periodic timers.
/// Events are processed strictly in delivery order.
#[derive(Clone, Copy, Debug, PartialEq, Eq, Structural)]
pub enum TerminalEvent {
    /// The surface asks the application to shut down.
    Quit,
    /// The periodic tick timer fired.
    Tick,
    /// The periodic render timer fired.
    Render,
    /// The terminal was resized to the given width and height.
    Resize(u16, u16),
    /// A key was pressed.
    Key(KeyPress),
    /// Any other surface event; forwarded to components only.
    Other,
}

} // verus!
