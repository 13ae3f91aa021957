//! How much of a run is traced: bytes on the wire, frames, or segments.
use vstd::prelude::*;

verus! {

/// The level of detail of a trace.
#[derive(Debug, Clone, Copy, PartialEq, Eq, Structural)]
pub enum Level {
    /// Every byte on the wire.
    Byte,
    /// Every frame sent or received.
    Frame,
    /// Every segment sent or received.
    Transport,
}

impl Default for Level {
    fn default() -> (l: Level)
        ensures
            l == Level::Byte,
    {
        Level::Byte
    }
}

/// Whether `level` traces the bytes on the wire.
pub fn is_byte_level(level: Level) -> (b: bool)
    ensures
        b == (level == Level::Byte),
{
    match level {
        Level::Byte => true,
        _ => false,
    }
}

/// Whether `level` traces frames.
pub fn is_frame_level(level: Level) -> (b: bool)
    ensures
        b == (level == Level::Frame),
{
    match level {
        Level::Byte => false,
        Level::Frame => true,
        Level::Transport => false,
    }
}

/// Whether `level` traces segments.
pub fn is_transport_level(level: Level) -> (b: bool)
    ensures
        b == (level == Level::Transport),
{
    match level {
        Level::Byte => false,
        Level::Frame => false,
        Level::Transport => true,
    }
}

} // verus!
