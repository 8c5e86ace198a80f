//! The mouse buttons and click kinds that tray events report.
use vstd::prelude::*;

verus! {

/// A mouse button.
#[derive(Debug, Clone, Copy, PartialEq, Eq, Hash, PartialOrd, Ord, Structural)]
pub enum Button {
    /// The left mouse button.
    Left,
    /// The right mouse button.
    Right,
    /// The middle (wheel) button.
    Middle,
    /// The back mouse button.
    Back,
    /// The forward mouse button.
    Forward,
    /// Some other button, by its number.
    Other(u16),
}

/// The kind of a mouse click.
#[derive(Debug, Clone, Copy, PartialEq, Eq, Hash, PartialOrd, Ord, Structural)]
pub enum Kind {
    /// A single click.
    Single,
    /// A double click.
    Double,
    /// A triple click.
    Triple,
}

} // verus!
